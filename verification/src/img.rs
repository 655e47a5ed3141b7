//! Decoded images: a single frame, or a sequence of frames that repeats.

use crate::window::frame_len;
use crate::zoom::{
    factor_one_keeps_dims, ratio_maps_denominator, rounded_div_lower, rounded_div_upper, Zoom,
};
use fast_image_resize::images::{Image as Raster, ImageRef};
use fast_image_resize::{FilterType, PixelType, ResizeAlg, ResizeOptions, Resizer};
use vstd::arithmetic::div_mod::{lemma_mod_add_multiples_vanish, lemma_mod_bound, lemma_small_mod};
use vstd::prelude::*;
use vstd::slice::slice_to_vec;

verus! {

/// How long a frame of a sequence is shown: `numer_ms / denom_ms`
/// milliseconds, as decoders report it.
#[derive(Clone, Copy, Debug, PartialEq, Eq, Structural)]
pub struct Delay {
    pub numer_ms: u32,
    pub denom_ms: u32,
}

/// We can have either a single image
/// or a sequence of images (i.e. an animated gif).
///
/// Pixels are four bytes each, row by row. Of a sequence the frame that is
/// due next is the one at `index`, counted round the sequence.
pub enum Image {
    Single { data: Vec<u8>, size: (u32, u32) },
    Sequence { frames: Vec<Vec<u8>>, delays: Vec<Delay>, index: usize, size: (u32, u32) },
}

/// What an image holds: its frames in order, and the count that says which
/// of them is due. A single image is one frame that is always due.
#[verifier::ext_equal]
pub struct ImageModel {
    pub animated: bool,
    pub size: (u32, u32),
    pub frames: Seq<Seq<u8>>,
    pub delays: Seq<Delay>,
    /// How many frames have been taken, as the image keeps count of it; the
    /// frame that is due is found by counting round the sequence.
    pub index: int,
}

impl ImageModel {
    /// There is a frame, every frame fills the canvas, a sequence has one
    /// delay for each frame, and a single image counts nothing.
    pub open spec fn wf(self) -> bool {
        &&& self.frames.len() > 0
        &&& forall|i: int|
            0 <= i < self.frames.len() ==> (#[trigger] self.frames[i]).len() == frame_len(
                self.size,
            )
        &&& if self.animated {
            self.delays.len() == self.frames.len()
        } else {
            self.frames.len() == 1 && self.delays.len() == 0 && self.index == 0
        }
        &&& 0 <= self.index
    }

    /// The place of the frame that is due: the index, counted round the
    /// sequence.
    pub open spec fn cursor(self) -> int {
        if self.index < self.frames.len() {
            self.index
        } else {
            self.index % (self.frames.len() as int)
        }
    }

    /// The frame that is due.
    pub open spec fn current(self) -> Seq<u8> {
        self.frames[self.cursor()]
    }

    /// The same image with one more frame taken. A sequence's index goes up
    /// by one; only where it can go no higher it starts again from the place
    /// of the frame that is due, so that the frames go on in their order. A
    /// single image stays as it is.
    pub open spec fn advanced(self) -> ImageModel {
        if self.animated {
            ImageModel {
                index: if self.index < usize::MAX {
                    self.index + 1
                } else {
                    self.cursor() + 1
                },
                ..self
            }
        } else {
            self
        }
    }

    /// The image after `n` frames have been taken from it.
    pub open spec fn after(self, n: nat) -> ImageModel
        decreases n,
    {
        if n == 0 {
            self
        } else {
            self.after((n - 1) as nat).advanced()
        }
    }

    /// The frame that the call numbered `i` returns, where the next call has
    /// the number zero.
    pub open spec fn frame_on_call(self, i: nat) -> Seq<u8> {
        self.after(i).current()
    }

    /// The image at the size that the canvas takes at the factor `scale`:
    /// every frame resampled by itself, or the image as it is where the size
    /// stays the same. Delays and index stay.
    pub open spec fn scaled(self, scale: Zoom) -> ImageModel {
        let target = scaled_size(self.size, scale);
        if target == self.size {
            self
        } else {
            ImageModel {
                size: target,
                frames: Seq::new(
                    self.frames.len(),
                    |i: int| scaled_pixels(self.frames[i], self.size, target),
                ),
                ..self
            }
        }
    }

    /// The sequence that a decoder's frames and delays make, its first frame
    /// due.
    pub open spec fn sequence(size: (u32, u32), frames: Seq<Seq<u8>>, delays: Seq<Delay>) -> ImageModel {
        ImageModel { animated: true, size, frames, delays, index: 0 }
    }
}

impl View for Image {
    type V = ImageModel;

    open spec fn view(&self) -> ImageModel {
        match self {
            Image::Single { data, size } => ImageModel {
                animated: false,
                size: *size,
                frames: seq![data@],
                delays: Seq::empty(),
                index: 0,
            },
            Image::Sequence { frames, delays, index, size } => ImageModel {
                animated: true,
                size: *size,
                frames: Seq::new(frames@.len(), |i: int| frames@[i]@),
                delays: delays@,
                index: *index as int,
            },
        }
    }
}

/// How a resize picks the colour of a pixel.
#[derive(Clone, Copy)]
enum Filter {
    /// The colour of the nearest pixel of the source: fast.
    Nearest,
    /// A weighted mean of the pixels around, with Hamming's window: smooth.
    Hamming,
}

/// The pixels that `fast_image_resize` makes of the `width` by `height`
/// pixels `src` for a canvas of `dst_width` by `dst_height`, when it gives
/// every pixel the colour of the nearest pixel of the source.
pub uninterp spec fn nearest_resized(
    src: Seq<u8>,
    width: u32,
    height: u32,
    dst_width: u32,
    dst_height: u32,
) -> Seq<u8>;

/// The two canvases are small enough for every buffer that resampling from
/// the one to the other allocates: none of them is longer than a canvas as
/// wide and as high as the two together, plus a few bytes for each row and
/// column.
pub open spec fn resample_fits(size: (u32, u32), target: (u32, u32)) -> bool {
    4 * ((size.0 + target.0) * (size.1 + target.1)) + 40 * (size.0 + size.1 + target.0 + target.1)
        + 8 <= isize::MAX
}

/// Resamples the `size.0` by `size.1` pixels `src` to a canvas of `target`,
/// by `fast_image_resize::Resizer::resize` on four-byte pixels, without
/// cropping, into a new buffer.
///
/// Not proved, but taken from that crate: it refuses a buffer that is
/// shorter than the canvas, hence the first demand, and it allocates what
/// `resample_fits` bounds, hence the second. The result has four bytes for
/// each pixel of `target`. Where the two sizes are the same the pixels are
/// copied, whatever the filter. With the nearest-neighbour filter the
/// result depends on nothing but the pixels and the two sizes, and
/// `nearest_resized` is its name; of the smooth filter's colours nothing is
/// said, for they may differ with the processor.
#[verifier::external_body]
fn resample(src: &[u8], size: (u32, u32), target: (u32, u32), filter: Filter) -> (dst: Vec<u8>)
    requires
        src@.len() == frame_len(size),
        resample_fits(size, target),
    ensures
        dst@.len() == frame_len(target),
        target == size ==> dst@ == src@,
        filter is Nearest ==> dst@ == nearest_resized(src@, size.0, size.1, target.0, target.1),
{
    let algorithm = match filter {
        Filter::Nearest => ResizeAlg::Nearest,
        Filter::Hamming => ResizeAlg::Convolution(FilterType::Hamming),
    };
    let options = ResizeOptions::new().resize_alg(algorithm);
    let source = ImageRef::new(size.0, size.1, src, PixelType::U8x4).unwrap();
    let mut scaled = Raster::new(target.0, target.1, PixelType::U8x4);
    Resizer::new().resize(&source, &mut scaled, &options).unwrap();
    scaled.into_vec()
}

/// Whether resampling from a canvas of `size` to one of `target` is within
/// what memory can hold.
pub fn can_resample(size: (u32, u32), target: (u32, u32)) -> (ok: bool)
    ensures
        ok == resample_fits(size, target),
{
    let w: u128 = size.0 as u128 + target.0 as u128;
    let h: u128 = size.1 as u128 + target.1 as u128;
    assert(0 <= w * h <= 0x2_0000_0000 * 0x2_0000_0000) by (nonlinear_arith)
        requires
            0 <= w <= 0x2_0000_0000,
            0 <= h <= 0x2_0000_0000,
    ;
    let need: u128 = 4 * (w * h) + 40 * (w + h) + 8;
    need <= isize::MAX as u128
}

/// The size that `size` takes at the factor `scale`, each axis rounded by
/// itself.
pub open spec fn scaled_size(size: (u32, u32), scale: Zoom) -> (u32, u32) {
    (scale.scale_dim(size.0 as int) as u32, scale.scale_dim(size.1 as int) as u32)
}

/// The pixels of a frame of `size` brought to the size `target`: the frame
/// itself where the size stays, else what nearest-neighbour resampling makes
/// of it.
pub open spec fn scaled_pixels(src: Seq<u8>, size: (u32, u32), target: (u32, u32)) -> Seq<u8> {
    if target == size {
        src
    } else {
        nearest_resized(src, size.0, size.1, target.0, target.1)
    }
}

/// The size of a canvas of `size` at the factor `scale`.
pub fn scale_size(size: (u32, u32), scale: Zoom) -> (scaled: (u32, u32))
    requires
        scale.wf(),
    ensures
        scaled == scaled_size(size, scale),
        scale.is_one() ==> scaled == size,
{
    let width_new = scale.apply(size.0);
    let height_new = scale.apply(size.1);
    (width_new, height_new)
}

/// Scales one frame by `scale`, taking for each pixel the nearest pixel of
/// the frame. Returns the new pixels and their canvas size. Where the size
/// stays the same there is nothing to resample, and the pixels are copied;
/// so the factor one asks nothing of memory that the frame does not ask
/// already.
pub fn scale_image_fast(image: &[u8], size: (u32, u32), scale: Zoom) -> (out: (Vec<u8>, (u32, u32)))
    requires
        image@.len() == frame_len(size),
        scale.wf(),
        scaled_size(size, scale) != size ==> resample_fits(size, scaled_size(size, scale)),
    ensures
        out.1 == scaled_size(size, scale),
        out.0@ == scaled_pixels(image@, size, out.1),
        out.0@.len() == frame_len(out.1),
        scale.is_one() ==> out.1 == size && out.0@ == image@,
{
    let target_size = scale_size(size, scale);
    if target_size.0 == size.0 && target_size.1 == size.1 {
        (slice_to_vec(image), target_size)
    } else {
        (resample(image, size, target_size, Filter::Nearest), target_size)
    }
}

/// Resizes a frame to `dst_size` smoothly. The colours that come out are the
/// resampler's choice; the canvas is filled, and a frame that already has
/// the size asked for comes back as it is.
pub fn resize(src: &[u8], size: (u32, u32), dst_size: (u32, u32)) -> (dst: Vec<u8>)
    requires
        src@.len() == frame_len(size),
        resample_fits(size, dst_size),
    ensures
        dst@.len() == frame_len(dst_size),
        dst_size == size ==> dst@ == src@,
{
    resample(src, size, dst_size, Filter::Hamming)
}

impl Image {
    /// The image is as `ImageModel::wf` asks.
    pub open spec fn wf(&self) -> bool {
        self@.wf()
    }

    /// Whether the image is well formed: it has a frame, each frame's buffer
    /// has four bytes for every pixel of the canvas, and a sequence has as
    /// many delays as frames.
    pub fn is_valid(&self) -> (ok: bool)
        ensures
            ok == self.wf(),
    {
        match self {
            Image::Single { data, size } => {
                let ok = fills(data.as_slice(), *size);
                proof {
                    assert(self@.frames[0] == data@);
                }
                ok
            },
            Image::Sequence { frames, delays, index, size } => {
                if frames.len() == 0 || frames.len() != delays.len() {
                    return false;
                }
                let mut i: usize = 0;
                while i < frames.len()
                    invariant
                        i <= frames.len(),
                        self@.size == *size,
                        self@.frames.len() == frames@.len(),
                        forall|j: int|
                            0 <= j < frames@.len() ==> #[trigger] self@.frames[j] == frames@[j]@,
                        forall|j: int|
                            0 <= j < i ==> (#[trigger] frames@[j])@.len() == frame_len(*size),
                    decreases frames.len() - i,
                {
                    if !fills(frames[i].as_slice(), *size) {
                        proof {
                            assert(self@.frames[i as int].len() != frame_len(self@.size));
                        }
                        return false;
                    }
                    i += 1;
                }
                proof {
                    assert forall|j: int| 0 <= j < self@.frames.len() implies (
                    #[trigger] self@.frames[j]).len() == frame_len(self@.size) by {
                        assert(frames@[j]@.len() == frame_len(*size));
                    }
                }
                true
            },
        }
    }

    /// The canvas size: width and height in pixels.
    pub fn size(&self) -> (size: (u32, u32))
        ensures
            size == self@.size,
    {
        match self {
            Image::Single { size, .. } => *size,
            Image::Sequence { size, .. } => *size,
        }
    }

    /// The delays of a sequence, one for each frame; none for a single image.
    pub fn delays(&self) -> (delays: Option<&[Delay]>)
        ensures
            match delays {
                Some(list) => self@.animated && list@ == self@.delays,
                None => !self@.animated,
            },
    {
        match self {
            Image::Sequence { delays, .. } => Some(delays.as_slice()),
            _ => None,
        }
    }

    /// A copy of the image at the factor `scale`: every frame resampled by
    /// itself, with the same delays and the same index. At a factor that
    /// leaves the size as it is, and so at the factor one, the copy is the
    /// same image, pixel for pixel.
    pub fn scaled(&self, scale: Zoom) -> (scaled: Image)
        requires
            self.wf(),
            scale.wf(),
            scaled_size(self@.size, scale) != self@.size ==> resample_fits(
                self@.size,
                scaled_size(self@.size, scale),
            ),
        ensures
            scaled@ == self@.scaled(scale),
            scaled.wf(),
            scale.is_one() ==> scaled@ == self@,
    {
        proof {
            if scale.is_one() {
                factor_one_keeps_dims(scale, self@.size.0);
                factor_one_keeps_dims(scale, self@.size.1);
            }
        }
        let scaled = match self {
            Image::Single { data, size } => {
                assert(self@.frames[0] == data@);
                let (data, size) = scale_image_fast(data.as_slice(), *size, scale);
                Image::Single { data, size }
            },
            Image::Sequence { frames, delays, index, size } => {
                let target_size = scale_size(*size, scale);
                assert forall|j: int| 0 <= j < frames@.len() implies (#[trigger] frames@[j])@.len()
                    == frame_len(*size) by {
                    assert(self@.frames[j] == frames@[j]@);
                }
                let mut scaled_frames: Vec<Vec<u8>> = Vec::new();
                let mut i: usize = 0;
                while i < frames.len()
                    invariant
                        i <= frames.len(),
                        scale.wf(),
                        target_size == scaled_size(*size, scale),
                        target_size != *size ==> resample_fits(*size, target_size),
                        forall|j: int|
                            0 <= j < frames@.len() ==> (#[trigger] frames@[j])@.len() == frame_len(
                                *size,
                            ),
                        scaled_frames@.len() == i,
                        forall|j: int|
                            0 <= j < i ==> (#[trigger] scaled_frames@[j])@ == scaled_pixels(
                                frames@[j]@,
                                *size,
                                target_size,
                            ) && scaled_frames@[j]@.len() == frame_len(target_size),
                    decreases frames.len() - i,
                {
                    let frame = scale_image_fast(frames[i].as_slice(), *size, scale).0;
                    scaled_frames.push(frame);
                    i += 1;
                }
                Image::Sequence {
                    frames: scaled_frames,
                    delays: delays.clone(),
                    index: *index,
                    size: target_size,
                }
            },
        };
        proof {
            assert(scaled@.delays =~= self@.delays);
            assert(scaled@.frames =~= self@.scaled(scale).frames);
            assert(scaled@ =~= self@.scaled(scale));
        }
        scaled
    }

    /// Get the next frame.
    ///
    /// A single image gives its one frame every time. A sequence gives the
    /// frame at `index`, counted round the sequence, and adds one to
    /// `index`. Only an `index` that can go no higher starts again, from
    /// one more than the place of the frame just given.
    pub fn next_frame(&mut self) -> (frame: &[u8])
        requires
            old(self).wf(),
        ensures
            frame@ == old(self)@.current(),
            frame@ == old(self)@.frames[old(self)@.index % (old(self)@.frames.len() as int)],
            final(self)@ == old(self)@.advanced(),
            final(self).wf(),
    {
        proof {
            cursor_counts_round(self@);
        }
        match self {
            Image::Single { data, .. } => data.as_slice(),
            Image::Sequence { index, frames, .. } => {
                let n = frames.len();
                proof {
                    if *index < n {
                        lemma_small_mod(*index as nat, n as nat);
                    }
                    lemma_mod_bound(*index as int, n as int);
                }
                let i = *index % n;
                *index = if *index < usize::MAX {
                    *index + 1
                } else {
                    i + 1
                };
                frames[i].as_slice()
            },
        }
    }
}

/// Whether `data` has four bytes for every pixel of a canvas of `size`.
fn fills(data: &[u8], size: (u32, u32)) -> (ok: bool)
    ensures
        ok == (data@.len() == frame_len(size)),
{
    assert(0 <= size.0 * size.1 <= 0xffff_ffff * 0xffff_ffff) by (nonlinear_arith)
        requires
            0 <= size.0 <= 0xffff_ffff,
            0 <= size.1 <= 0xffff_ffff,
    ;
    let expected: u128 = (size.0 as u128) * (size.1 as u128) * 4;
    data.len() as u128 == expected
}

/// The smaller of the ratios `bounds.0 / size.0` and `bounds.1 / size.1`, as
/// numerator and denominator. A ratio over zero counts as larger than any
/// other, and there is no ratio where both are over zero.
pub open spec fn fit_ratio_of(size: (u32, u32), bounds: (u32, u32)) -> Option<(u32, u32)> {
    if size.0 == 0 && size.1 == 0 {
        None
    } else if size.1 == 0 || (size.0 != 0 && bounds.0 * size.1 <= bounds.1 * size.0) {
        Some((bounds.0, size.0))
    } else {
        Some((bounds.1, size.1))
    }
}

/// The size to which a canvas of `size` has to shrink to fit within `max`
/// with its proportions kept; none where it fits as it is.
pub open spec fn fitted_size(size: (u32, u32), max: (u32, u32)) -> Option<(u32, u32)> {
    match fit_ratio_of(size, max) {
        Some((n, d)) => if n < d {
            Some(scaled_size(size, Zoom::spec_from_ratio(n, d)))
        } else {
            None
        },
        None => None,
    }
}

/// The smaller of the two ratios of `bounds` to `size`, axis by axis.
pub fn fit_ratio(size: (u32, u32), bounds: (u32, u32)) -> (ratio: Option<(u32, u32)>)
    ensures
        ratio == fit_ratio_of(size, bounds),
        ratio matches Some(r) ==> r.1 > 0,
{
    assert(0 <= bounds.0 * size.1 <= 0xffff_ffff * 0xffff_ffff && 0 <= bounds.1 * size.0
        <= 0xffff_ffff * 0xffff_ffff) by (nonlinear_arith)
        requires
            0 <= bounds.0 <= 0xffff_ffff,
            0 <= bounds.1 <= 0xffff_ffff,
            0 <= size.0 <= 0xffff_ffff,
            0 <= size.1 <= 0xffff_ffff,
    ;
    let across: u64 = (bounds.0 as u64) * (size.1 as u64);
    let down: u64 = (bounds.1 as u64) * (size.0 as u64);
    if size.0 == 0 && size.1 == 0 {
        None
    } else if size.1 == 0 || (size.0 != 0 && across <= down) {
        Some((bounds.0, size.0))
    } else {
        Some((bounds.1, size.1))
    }
}

/// The size to shrink a canvas to so that it fits within `max`, if it does
/// not fit already.
pub fn fit_size(size: (u32, u32), max: (u32, u32)) -> (target: Option<(u32, u32)>)
    ensures
        target == fitted_size(size, max),
        target matches Some(t) ==> t.0 <= max.0 && t.1 <= max.1 && t.0 <= size.0 && t.1 <= size.1,
        target is None ==> size.0 <= max.0 && size.1 <= max.1,
{
    proof {
        fitted_size_fits(size, max);
    }
    match fit_ratio(size, max) {
        Some((n, d)) => {
            if n < d {
                Some(scale_size(size, Zoom::from_ratio(n, d)))
            } else {
                None
            }
        },
        None => None,
    }
}

/// The kinds of file, told by the extension of the name: two that may hold a
/// sequence, and all the others.
#[derive(Clone, Copy, Debug, PartialEq, Eq, Structural)]
pub enum Format {
    Gif,
    Webp,
    Other,
}

/// The bytes of `gif`.
pub open spec fn gif_extension() -> Seq<u8> {
    seq![0x67u8, 0x69u8, 0x66u8]
}

/// The bytes of `webp`.
pub open spec fn webp_extension() -> Seq<u8> {
    seq![0x77u8, 0x65u8, 0x62u8, 0x70u8]
}

/// The kind of file that a name with the extension `extension` holds. The
/// extension counts letter for letter, in lower case; a name without
/// extension is of the other kind.
pub fn format_of(extension: Option<&[u8]>) -> (format: Format)
    ensures
        format == Format::Gif <==> (extension matches Some(e) && e@ == gif_extension()),
        format == Format::Webp <==> (extension matches Some(e) && e@ == webp_extension()),
{
    match extension {
        Some(e) => {
            if e.len() == 3 && e[0] == 0x67 && e[1] == 0x69 && e[2] == 0x66 {
                assert(e@ =~= gif_extension());
                Format::Gif
            } else if e.len() == 4 && e[0] == 0x77 && e[1] == 0x65 && e[2] == 0x62 && e[3] == 0x70 {
                assert(e@ =~= webp_extension());
                Format::Webp
            } else {
                assert(e@ != gif_extension()) by {
                    if e@ == gif_extension() {
                        assert(e@.len() == 3 && e@[0] == 0x67 && e@[1] == 0x69 && e@[2] == 0x66);
                    }
                }
                assert(e@ != webp_extension()) by {
                    if e@ == webp_extension() {
                        assert(e@.len() == 4 && e@[0] == 0x77 && e@[1] == 0x65 && e@[2] == 0x62
                            && e@[3] == 0x70);
                    }
                }
                Format::Other
            }
        },
        None => Format::Other,
    }
}

/// Whether a file of the kind `format` is read as a sequence of frames: a
/// gif always, a webp if it says that it is animated, any other never.
pub fn reads_frames(format: Format, has_animation: bool) -> (frames: bool)
    ensures
        frames == (format == Format::Gif || (format == Format::Webp && has_animation)),
{
    match format {
        Format::Gif => true,
        Format::Webp => has_animation,
        Format::Other => false,
    }
}

/// A still image from decoded pixels, shrunk smoothly where it does not fit
/// within `max_size`.
pub fn read_single(pixels: Vec<u8>, size: (u32, u32), max_size: (u32, u32)) -> (image: Image)
    requires
        pixels@.len() == frame_len(size),
        fitted_size(size, max_size) matches Some(target) ==> resample_fits(size, target),
    ensures
        image.wf(),
        !image@.animated,
        image@.size == match fitted_size(size, max_size) {
            Some(target) => target,
            None => size,
        },
        fitted_size(size, max_size) is None ==> image@.frames[0] == pixels@,
{
    // Resize to fit if needed.
    match fit_size(size, max_size) {
        Some(target) => {
            let data = resize(pixels.as_slice(), size, target);
            Image::Single { data, size: target }
        },
        None => Image::Single { data: pixels, size },
    }
}

/// A sequence from a decoder's frames and their delays, its first frame due;
/// none where there is no frame, where the delays are not one for each
/// frame, or where a frame does not fill the canvas.
pub fn read_frames(size: (u32, u32), frames: Vec<Vec<u8>>, delays: Vec<Delay>) -> (image: Option<
    Image,
>)
    ensures
        match image {
            Some(sequence) => sequence.wf() && sequence@ == ImageModel::sequence(
                size,
                Seq::new(frames@.len(), |i: int| frames@[i]@),
                delays@,
            ),
            None => !ImageModel::sequence(
                size,
                Seq::new(frames@.len(), |i: int| frames@[i]@),
                delays@,
            ).wf(),
        },
{
    let sequence = Image::Sequence { frames, delays, size, index: 0 };
    if sequence.is_valid() {
        Some(sequence)
    } else {
        None
    }
}

/// The place of the frame that is due is the index counted round the
/// sequence, and it is the index itself as long as that is on a frame.
pub proof fn cursor_counts_round(m: ImageModel)
    requires
        m.wf(),
    ensures
        m.cursor() == m.index % (m.frames.len() as int),
        0 <= m.cursor() < m.frames.len(),
        m.index < m.frames.len() ==> m.cursor() == m.index,
{
    let len = m.frames.len() as int;
    lemma_mod_bound(m.index, len);
    if m.index < len {
        lemma_small_mod(m.index as nat, len as nat);
    }
}

/// Taking a frame moves the place of the frame that is due on by one, the
/// first coming after the last, and changes neither frames nor delays nor
/// size.
pub proof fn advanced_moves_cursor(m: ImageModel)
    requires
        m.wf(),
    ensures
        m.advanced().cursor() == (m.cursor() + 1) % (m.frames.len() as int),
        0 <= m.cursor() < m.frames.len(),
        m.advanced().frames == m.frames,
        m.advanced().delays == m.delays,
        m.advanced().size == m.size,
        m.advanced().animated == m.animated,
        m.advanced().wf(),
{
    let len = m.frames.len() as int;
    let c = m.cursor();
    lemma_mod_bound(m.index, len);
    lemma_mod_bound(c + 1, len);
    if c + 1 < len {
        lemma_small_mod((c + 1) as nat, len as nat);
    } else {
        vstd::arithmetic::div_mod::lemma_mod_self_0(len);
    }
    if m.animated {
        let next = m.advanced().index;
        lemma_mod_bound(next, len);
        if m.index < usize::MAX && m.index >= len {
            // Counting round forgets whole rounds before it adds the one.
            vstd::arithmetic::div_mod::lemma_add_mod_noop(m.index, 1, len);
            vstd::arithmetic::div_mod::lemma_mod_twice(m.index, len);
            vstd::arithmetic::div_mod::lemma_add_mod_noop(c, 1, len);
        }
    }
}

/// Taking `n` frames moves the place of the frame that is due on by `n`,
/// counted round the sequence, and changes nothing else.
pub proof fn after_moves_cursor(m: ImageModel, n: nat)
    requires
        m.wf(),
    ensures
        m.after(n).cursor() == (m.cursor() + n) % (m.frames.len() as int),
        m.after(n).frames == m.frames,
        m.after(n).delays == m.delays,
        m.after(n).size == m.size,
        m.after(n).animated == m.animated,
        m.after(n).wf(),
    decreases n,
{
    let len = m.frames.len() as int;
    advanced_moves_cursor(m);
    if n == 0 {
        lemma_small_mod(m.cursor() as nat, len as nat);
    } else {
        after_moves_cursor(m, (n - 1) as nat);
        let before = m.after((n - 1) as nat);
        advanced_moves_cursor(before);
        // One more than the place before, counted round, is one more than
        // the sum, counted round.
        vstd::arithmetic::div_mod::lemma_add_mod_noop(m.cursor() + n - 1, 1, len);
        vstd::arithmetic::div_mod::lemma_add_mod_noop(before.cursor(), 1, len);
        vstd::arithmetic::div_mod::lemma_mod_twice(m.cursor() + n - 1, len);
    }
}

/// A sequence of `N` frames repeats: the calls numbered `i` and `i + N`
/// return the same frame.
pub proof fn frames_repeat(m: ImageModel, i: nat)
    requires
        m.wf(),
    ensures
        m.frame_on_call(i) == m.frame_on_call(i + m.frames.len()),
{
    let len = m.frames.len() as int;
    after_moves_cursor(m, i);
    after_moves_cursor(m, i + m.frames.len());
    lemma_mod_add_multiples_vanish(m.cursor() + i, len);
}

/// A single image returns the same frame on every call.
pub proof fn single_frame_stays(m: ImageModel, i: nat)
    requires
        m.wf(),
        !m.animated,
    ensures
        m.frame_on_call(i) == m.frames[0],
{
    after_moves_cursor(m, i);
    lemma_mod_bound(m.cursor() + i, 1);
}

/// At the factor one an image stays what it is: the same size and the same
/// frames, byte for byte and in the same order.
pub proof fn scaled_by_one_is_same(m: ImageModel, scale: Zoom)
    requires
        scale.wf(),
        scale.is_one(),
    ensures
        m.scaled(scale) == m,
        m.scaled(scale).size == m.size,
        m.scaled(scale).frames == m.frames,
{
    factor_one_keeps_dims(scale, m.size.0);
    factor_one_keeps_dims(scale, m.size.1);
}

/// Scaling changes neither the number of frames nor their delays nor the
/// index: the copy is due where the source is.
pub proof fn scaled_keeps_place(m: ImageModel, scale: Zoom)
    ensures
        m.scaled(scale).index == m.index,
        m.scaled(scale).frames.len() == m.frames.len(),
        m.scaled(scale).delays == m.delays,
        m.scaled(scale).animated == m.animated,
        m.scaled(scale).cursor() == m.cursor(),
        m.scaled(scale).advanced() == m.advanced().scaled(scale),
{
    assert(m.scaled(scale).advanced() =~~= m.advanced().scaled(scale));
}

/// The factor `n / d` takes `dim` to no more than `k`, where `dim * n / d`
/// is no more than `k`.
proof fn ratio_scale_upper(n: u32, d: u32, dim: u32, k: int)
    requires
        d > 0,
        dim * n <= k * d,
        0 <= k,
    ensures
        0 <= Zoom::spec_from_ratio(n, d).scale_dim(dim as int) <= k,
{
    let z = Zoom::spec_from_ratio(n, d);
    assert(z.num == 10 * n);
    assert(dim * z.num <= k * (10 * z.unit)) by (nonlinear_arith)
        requires
            z.num == 10 * n,
            z.unit == d,
            dim * n <= k * d,
    ;
    assert(dim * z.num >= 0) by (nonlinear_arith)
        requires
            dim >= 0,
            z.num >= 0,
    ;
    rounded_div_upper(dim * z.num, 10 * z.unit, k);
    rounded_div_lower(dim * z.num, 10 * z.unit);
}

/// A canvas that has to shrink comes to lie within the bounds and within its
/// own size; one that need not shrink lies within the bounds already.
pub proof fn fitted_size_fits(size: (u32, u32), max: (u32, u32))
    ensures
        fitted_size(size, max) matches Some(t) ==> t.0 <= max.0 && t.1 <= max.1 && t.0 <= size.0
            && t.1 <= size.1,
        fitted_size(size, max) is None ==> size.0 <= max.0 && size.1 <= max.1,
{
    let width_decides = size.1 == 0 || (size.0 != 0 && max.0 * size.1 <= max.1 * size.0);
    if size.0 == 0 && size.1 == 0 {
    } else if width_decides {
        let n = max.0;
        let d = size.0;
        assert(size.1 * n <= max.1 * d) by (nonlinear_arith)
            requires
                size.1 == 0 || max.0 * size.1 <= max.1 * size.0,
                n == max.0,
                d == size.0,
        ;
        if n < d {
            ratio_maps_denominator(n, d);
            ratio_scale_upper(n, d, size.1, max.1 as int);
            assert(size.1 * n <= size.1 * d) by (nonlinear_arith)
                requires
                    n < d,
                    size.1 >= 0,
            ;
            ratio_scale_upper(n, d, size.1, size.1 as int);
        } else if size.1 > 0 {
            assert(size.1 <= max.1) by (nonlinear_arith)
                requires
                    size.1 * n <= max.1 * d,
                    n >= d,
                    d > 0,
                    size.1 > 0,
                    max.1 >= 0,
            ;
        }
    } else {
        let n = max.1;
        let d = size.1;
        assert(size.0 * n <= max.0 * d) by (nonlinear_arith)
            requires
                size.0 == 0 || max.0 * size.1 > max.1 * size.0,
                n == max.1,
                d == size.1,
                max.0 >= 0,
                d >= 0,
        ;
        if n < d {
            ratio_maps_denominator(n, d);
            ratio_scale_upper(n, d, size.0, max.0 as int);
            assert(size.0 * n <= size.0 * d) by (nonlinear_arith)
                requires
                    n < d,
                    size.0 >= 0,
            ;
            ratio_scale_upper(n, d, size.0, size.0 as int);
        } else if size.0 > 0 {
            assert(size.0 <= max.0) by (nonlinear_arith)
                requires
                    size.0 * n <= max.0 * d,
                    n >= d,
                    d > 0,
                    size.0 > 0,
                    max.0 >= 0,
            ;
        }
    }
}

} // verus!
