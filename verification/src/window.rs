//! Windowing: which part of an image shows in a window of a given size, and
//! where in the window it lands.
//!
//! On each axis the image is either smaller than the window, and is then
//! centred with padding on both sides, or larger, and is then cropped to a
//! span that the pan offset moves about the image's centre.

use vstd::arithmetic::div_mod::{lemma_fundamental_div_mod, lemma_fundamental_div_mod_converse};
use vstd::prelude::*;

verus! {

/// Bytes per pixel.
pub const CHANNELS: usize = 4;

/// Number of bytes of a frame of the given size.
pub open spec fn frame_len(size: (u32, u32)) -> int {
    size.0 * size.1 * 4
}

/// Position of the element at column `x` of row `y` in a row-major
/// grid that is `w` columns wide.
pub open spec fn flat_index(x: int, y: int, w: int) -> int {
    y * w + x
}

/// Empty columns (or rows) before an image of extent `img` that is centred
/// in a window of extent `win`.
pub open spec fn padding(img: int, win: int) -> int {
    if win > img {
        (win - img) / 2
    } else {
        0
    }
}

/// Largest pan, to either side, that keeps a window of extent `win` on an
/// image of extent `img`.
pub open spec fn pan_limit(img: int, win: int) -> int {
    if img > win {
        (img - win) / 2
    } else {
        0
    }
}

/// `v` held to the range from `lo` to `hi`.
pub open spec fn clamp_to(v: int, lo: int, hi: int) -> int {
    if v < lo {
        lo
    } else if v > hi {
        hi
    } else {
        v
    }
}

/// A pan offset held to the limit of its axis.
pub open spec fn clamped_offset(offset: int, img: int, win: int) -> int {
    clamp_to(offset, -pan_limit(img, win), pan_limit(img, win))
}

/// First column (or row) of the image that shows in the window.
pub open spec fn span_start(img: int, win: int, offset: int) -> int {
    clamp_to(img / 2 + offset - win / 2, 0, img)
}

/// Number of columns (or rows) of the image that show in the window: the
/// window's extent, cut off where the image ends.
pub open spec fn span_len(img: int, win: int, offset: int) -> int {
    let start = span_start(img, win, offset);
    if start + win <= img {
        win
    } else {
        img - start
    }
}

/// Channel `c` of the window's pixel at column `x`, row `y`: the image's
/// pixel that shows there, or zero where the window shows no image.
pub open spec fn window_pixel(
    src: Seq<u8>,
    img: (u32, u32),
    win: (u32, u32),
    pan: (i32, i32),
    x: int,
    y: int,
    c: int,
) -> u8 {
    let pad_x = padding(img.0 as int, win.0 as int);
    let pad_y = padding(img.1 as int, win.1 as int);
    let start_x = span_start(img.0 as int, win.0 as int, pan.0 as int);
    let start_y = span_start(img.1 as int, win.1 as int, pan.1 as int);
    let len_x = span_len(img.0 as int, win.0 as int, pan.0 as int);
    let len_y = span_len(img.1 as int, win.1 as int, pan.1 as int);
    if pad_x <= x < pad_x + len_x && pad_y <= y < pad_y + len_y {
        src[flat_index(start_x + x - pad_x, start_y + y - pad_y, img.0 as int) * 4 + c]
    } else {
        0u8
    }
}

/// Byte `k` of the window's buffer.
pub open spec fn window_byte(
    src: Seq<u8>,
    img: (u32, u32),
    win: (u32, u32),
    pan: (i32, i32),
    k: int,
) -> u8 {
    window_pixel(src, img, win, pan, (k / 4) % (win.0 as int), (k / 4) / (win.0 as int), k % 4)
}

/// The window's whole buffer: row-major, four bytes per pixel.
pub open spec fn windowed(src: Seq<u8>, img: (u32, u32), win: (u32, u32), pan: (i32, i32)) -> Seq<
    u8,
> {
    Seq::new(frame_len(win) as nat, |k: int| window_byte(src, img, win, pan, k))
}

/// Byte `k` of the window's buffer once the first `rows` rows of the span
/// have been copied.
spec fn window_byte_upto(
    src: Seq<u8>,
    img: (u32, u32),
    win: (u32, u32),
    pan: (i32, i32),
    rows: int,
    k: int,
) -> u8 {
    if (k / 4) / (win.0 as int) < padding(img.1 as int, win.1 as int) + rows {
        window_byte(src, img, win, pan, k)
    } else {
        0u8
    }
}

/// Byte `k` of a row-major buffer of width `w` belongs to the pixel at
/// column `(k / 4) % w` of row `(k / 4) / w`.
pub proof fn byte_to_pixel(k: int, w: int)
    requires
        k >= 0,
        w > 0,
    ensures
        0 <= k % 4 < 4,
        0 <= (k / 4) % w < w,
        (k / 4) / w >= 0,
        k == flat_index((k / 4) % w, (k / 4) / w, w) * 4 + k % 4,
{
    let p = k / 4;
    lemma_fundamental_div_mod(p, w);
    vstd::arithmetic::div_mod::lemma_mod_bound(p, w);
    vstd::arithmetic::div_mod::lemma_div_pos_is_pos(p, w);
    assert(w * (p / w) == (p / w) * w) by (nonlinear_arith);
}

/// The pixel at column `x` of row `y` holds bytes
/// `flat_index(x, y, w) * 4 + c` for `c` from 0 to 3.
pub proof fn pixel_to_byte(x: int, y: int, c: int, w: int)
    requires
        0 <= x < w,
        0 <= y,
        0 <= c < 4,
    ensures
        ({
            let k = flat_index(x, y, w) * 4 + c;
            &&& k >= 0
            &&& k % 4 == c
            &&& (k / 4) % w == x
            &&& (k / 4) / w == y
        }),
{
    let p = flat_index(x, y, w);
    assert(y * w >= 0) by (nonlinear_arith)
        requires
            y >= 0,
            w > 0,
    ;
    lemma_fundamental_div_mod_converse(p * 4 + c, 4, p, c);
    lemma_fundamental_div_mod_converse(p, w, y, x);
}

/// The span that shows never leaves the image, and never exceeds the window.
pub proof fn span_within(img: int, win: int, offset: int)
    requires
        0 <= img,
        0 <= win,
    ensures
        0 <= span_start(img, win, offset) <= img,
        0 <= span_len(img, win, offset) <= win,
        span_start(img, win, offset) + span_len(img, win, offset) <= img,
        padding(img, win) + span_len(img, win, offset) <= win,
        0 <= padding(img, win),
{
}

/// Row-major position of `(x, y)` in a grid of width `w`.
pub fn flat_idx(x: usize, y: usize, w: usize) -> (idx: usize)
    requires
        flat_index(x as int, y as int, w as int) <= usize::MAX,
    ensures
        idx == flat_index(x as int, y as int, w as int),
{
    assert(y * w >= 0) by (nonlinear_arith)
        requires
            y >= 0,
            w >= 0,
    ;
    y * w + x
}

/// The span of an image axis of extent `img_dim` that shows in a window of
/// extent `win_dim`, panned by `offset` from the centre: its first index,
/// and that index plus the window's extent.
pub fn centered_span(img_dim: i32, win_dim: i32, offset: i32) -> (span: (usize, usize))
    requires
        0 <= img_dim,
        0 <= win_dim,
    ensures
        span.0 == span_start(img_dim as int, win_dim as int, offset as int),
        span.1 == span.0 + win_dim,
{
    let img_center: i64 = (img_dim / 2) as i64 + offset as i64;
    let win_center: i64 = (win_dim / 2) as i64;
    let shifted: i64 = img_center - win_center;
    let start: i64 = if shifted < 0 {
        0
    } else if shifted > img_dim as i64 {
        img_dim as i64
    } else {
        shifted
    };
    let start: usize = start as usize;
    let end: usize = start + win_dim as usize;
    (start, end)
}

/// The part of an image axis of extent `img_dim` that shows in a window of
/// extent `win_dim`, panned by `offset` from the centre: its first index and
/// its length.
pub fn visible_span(img_dim: u32, win_dim: u32, offset: i32) -> (span: (usize, usize))
    ensures
        span.0 == span_start(img_dim as int, win_dim as int, offset as int),
        span.1 == span_len(img_dim as int, win_dim as int, offset as int),
{
    let shifted: i64 = (img_dim / 2) as i64 + offset as i64 - (win_dim / 2) as i64;
    let start: u32 = if shifted < 0 {
        0
    } else if shifted > img_dim as i64 {
        img_dim
    } else {
        shifted as u32
    };
    let left: u32 = img_dim - start;
    let len: u32 = if win_dim <= left {
        win_dim
    } else {
        left
    };
    (start as usize, len as usize)
}

/// Largest pan that keeps the window on the image, on one axis.
pub fn max_pan(img_dim: u32, win_dim: u32) -> (limit: i32)
    ensures
        limit == pan_limit(img_dim as int, win_dim as int),
        0 <= limit,
{
    if img_dim > win_dim {
        ((img_dim - win_dim) / 2) as i32
    } else {
        0
    }
}

/// Holds a pan offset to the limit of its axis.
pub fn clamp_offset(offset: i32, img_dim: u32, win_dim: u32) -> (clamped: i32)
    ensures
        clamped == clamped_offset(offset as int, img_dim as int, win_dim as int),
{
    shift_offset(offset, 0, img_dim, win_dim)
}

/// Moves a pan offset by `delta` and holds it to the limit of its axis.
pub fn shift_offset(offset: i32, delta: i32, img_dim: u32, win_dim: u32) -> (shifted: i32)
    ensures
        shifted == clamped_offset(offset + delta, img_dim as int, win_dim as int),
{
    let limit: i64 = max_pan(img_dim, win_dim) as i64;
    let moved: i64 = offset as i64 + delta as i64;
    if moved < -limit {
        (-limit) as i32
    } else if moved > limit {
        limit as i32
    } else {
        moved as i32
    }
}

/// Copies `len` bytes of `src`, from index `from` on, over those of `dst`
/// from index `at` on.
fn copy_row(dst: &mut Vec<u8>, at: usize, src: &[u8], from: usize, len: usize)
    requires
        at + len <= old(dst)@.len(),
        from + len <= src@.len(),
    ensures
        final(dst)@.len() == old(dst)@.len(),
        forall|k: int|
            0 <= k < old(dst)@.len() ==> #[trigger] final(dst)@[k] == if at <= k < at + len {
                src@[from + k - at]
            } else {
                old(dst)@[k]
            },
{
    let mut j: usize = 0;
    while j < len
        invariant
            j <= len,
            at + len <= dst.len(),
            from + len <= src.len(),
            dst@.len() == old(dst)@.len(),
            forall|k: int|
                0 <= k < dst@.len() ==> #[trigger] dst@[k] == if at <= k < at + j {
                    src@[from + k - at]
                } else {
                    old(dst)@[k]
                },
        decreases len - j,
    {
        dst.set(at + j, src[from + j]);
        j += 1;
    }
}

/// What a window of size `win` shows of an image of size `img` whose pixels
/// are `buffer`, with the pan `offset` measured from the image's centre.
///
/// An axis on which the image is smaller than the window is centred and
/// padded with zero bytes; an axis on which it is larger is cropped to the
/// span that `visible_span` gives.
pub fn buffer_window(buffer: &[u8], img: (u32, u32), win: (u32, u32), offset: (i32, i32)) -> (view:
    Vec<u8>)
    requires
        buffer@.len() == frame_len(img),
        frame_len(win) <= usize::MAX,
    ensures
        view@ == windowed(buffer@, img, win, offset),
{
    let img_width: usize = img.0 as usize;
    let img_height: usize = img.1 as usize;
    let win_width: usize = win.0 as usize;
    let win_height: usize = win.1 as usize;

    // Padding for when the image is smaller than the window, to keep it centred.
    let padding_x: usize = (win.0.saturating_sub(img.0) / 2) as usize;
    let padding_y: usize = (win.1.saturating_sub(img.1) / 2) as usize;

    // Range of pixels to copy from the image, given the window and the pan.
    let (start_x, slice_width) = visible_span(img.0, win.0, offset.0);
    let (start_y, rows) = visible_span(img.1, win.1, offset.1);

    proof {
        span_within(img.0 as int, win.0 as int, offset.0 as int);
        span_within(img.1 as int, win.1 as int, offset.1 as int);
        assert(win.0 * win.1 <= win.0 * win.1 * 4) by (nonlinear_arith)
            requires
                win.0 >= 0,
                win.1 >= 0,
        ;
    }
    let mut result: Vec<u8> = vec![0u8; win_width * win_height * CHANNELS];
    assert forall|k: int| 0 <= k < result@.len() implies #[trigger] result@[k] == window_byte_upto(
        buffer@,
        img,
        win,
        offset,
        0,
        k,
    ) by {
        // Nothing has been copied yet, and rows above the image stay empty.
        assert(result@[k] == 0u8);
    }

    let mut i: usize = 0;
    while i < rows
        invariant
            i <= rows,
            img_width == img.0,
            img_height == img.1,
            win_width == win.0,
            win_height == win.1,
            buffer.len() == frame_len(img),
            frame_len(win) <= usize::MAX,
            result.len() == frame_len(win),
            padding_x == padding(img.0 as int, win.0 as int),
            padding_y == padding(img.1 as int, win.1 as int),
            start_x == span_start(img.0 as int, win.0 as int, offset.0 as int),
            start_y == span_start(img.1 as int, win.1 as int, offset.1 as int),
            slice_width == span_len(img.0 as int, win.0 as int, offset.0 as int),
            rows == span_len(img.1 as int, win.1 as int, offset.1 as int),
            start_x + slice_width <= img_width,
            start_y + rows <= img_height,
            padding_x + slice_width <= win_width,
            padding_y + rows <= win_height,
            forall|k: int|
                0 <= k < result@.len() ==> #[trigger] result@[k] == window_byte_upto(
                    buffer@,
                    img,
                    win,
                    offset,
                    i as int,
                    k,
                ),
        decreases rows - i,
    {
        proof {
            row_bounds(
                start_x as int,
                slice_width as int,
                (start_y + i) as int,
                img_width as int,
                img_height as int,
            );
            row_bounds(
                padding_x as int,
                slice_width as int,
                (padding_y + i) as int,
                win_width as int,
                win_height as int,
            );
        }
        let a: usize = flat_idx(start_x, start_y + i, img_width) * CHANNELS;
        let idx: usize = flat_idx(padding_x, padding_y + i, win_width) * CHANNELS;
        let ghost before = result@;
        copy_row(&mut result, idx, buffer, a, slice_width * CHANNELS);
        proof {
            assert forall|k: int| 0 <= k < result@.len() implies #[trigger] result@[k]
                == window_byte_upto(buffer@, img, win, offset, i + 1, k) by {
                row_step(buffer@, img, win, offset, i as int, k);
                assert(before[k] == window_byte_upto(buffer@, img, win, offset, i as int, k));
            }
        }
        i += 1;
    }
    proof {
        assert forall|k: int| 0 <= k < result@.len() implies #[trigger] result@[k] == window_byte(
            buffer@,
            img,
            win,
            offset,
            k,
        ) by {
            assert(result@[k] == window_byte_upto(buffer@, img, win, offset, rows as int, k));
        }
        assert(result@ =~= windowed(buffer@, img, win, offset));
    }
    result
}

/// Row `y` of a grid of `w` by `h` holds the `len` pixels from column `x` on.
proof fn row_bounds(x: int, len: int, y: int, w: int, h: int)
    requires
        0 <= x,
        0 <= len,
        x + len <= w,
        0 <= y < h,
    ensures
        0 <= flat_index(x, y, w),
        flat_index(x, y, w) * 4 + len * 4 <= w * h * 4,
{
    assert(y * w >= 0 && y * w + w <= h * w && h * w == w * h) by (nonlinear_arith)
        requires
            0 <= y < h,
            0 <= w,
    ;
}

/// Copying row `i` of the span takes the buffer from its state after `i`
/// rows to its state after `i + 1`: the bytes of that row's span are the
/// image's, and no other byte changes.
proof fn row_step(src: Seq<u8>, img: (u32, u32), win: (u32, u32), pan: (i32, i32), i: int, k: int)
    requires
        0 <= k < frame_len(win),
        0 <= i < span_len(img.1 as int, win.1 as int, pan.1 as int),
    ensures
        ({
            let pad_x = padding(img.0 as int, win.0 as int);
            let pad_y = padding(img.1 as int, win.1 as int);
            let start_x = span_start(img.0 as int, win.0 as int, pan.0 as int);
            let start_y = span_start(img.1 as int, win.1 as int, pan.1 as int);
            let len_x = span_len(img.0 as int, win.0 as int, pan.0 as int);
            let at = flat_index(pad_x, pad_y + i, win.0 as int) * 4;
            let from = flat_index(start_x, start_y + i, img.0 as int) * 4;
            if at <= k < at + len_x * 4 {
                window_byte_upto(src, img, win, pan, i + 1, k) == src[from + k - at]
            } else {
                window_byte_upto(src, img, win, pan, i + 1, k) == window_byte_upto(
                    src,
                    img,
                    win,
                    pan,
                    i,
                    k,
                )
            }
        }),
{
    let w = win.0 as int;
    let pad_x = padding(img.0 as int, w);
    let pad_y = padding(img.1 as int, win.1 as int);
    let start_x = span_start(img.0 as int, w, pan.0 as int);
    let start_y = span_start(img.1 as int, win.1 as int, pan.1 as int);
    let len_x = span_len(img.0 as int, w, pan.0 as int);
    let at = flat_index(pad_x, pad_y + i, w) * 4;
    let from = flat_index(start_x, start_y + i, img.0 as int) * 4;
    span_within(img.0 as int, w, pan.0 as int);
    span_within(img.1 as int, win.1 as int, pan.1 as int);
    assert(w > 0) by {
        if w == 0 {
            assert(win.0 * win.1 * 4 == 0) by (nonlinear_arith)
                requires
                    win.0 == 0,
            ;
        }
    }
    byte_to_pixel(k, w);
    let x = (k / 4) % w;
    let y = (k / 4) / w;
    let c = k % 4;
    let row = pad_y + i;
    // How far byte `k` lies from the first byte of the row's span.
    assert(k - at == ((y - row) * w + (x - pad_x)) * 4 + c) by (nonlinear_arith)
        requires
            k == (y * w + x) * 4 + c,
            at == (row * w + pad_x) * 4,
    ;
    if y == row {
        assert((y - row) * w == 0) by (nonlinear_arith)
            requires
                y == row,
        ;
        if at <= k < at + len_x * 4 {
            assert(from + k - at == flat_index(start_x + x - pad_x, start_y + y - pad_y, img.0 as int)
                * 4 + c) by (nonlinear_arith)
                requires
                    from == ((start_y + i) * img.0 + start_x) * 4,
                    k - at == (x - pad_x) * 4 + c,
                    y - pad_y == i,
                    flat_index(start_x + x - pad_x, start_y + y - pad_y, img.0 as int) == (start_y
                        + y - pad_y) * img.0 + (start_x + x - pad_x),
            ;
        }
    } else if y > row {
        assert((y - row) * w >= w) by (nonlinear_arith)
            requires
                y - row >= 1,
                w > 0,
        ;
    } else {
        assert((y - row) * w <= -w) by (nonlinear_arith)
            requires
                y - row <= -1,
                w > 0,
        ;
    }
}

/// The window's buffer holds the window's pixels row by row, four bytes
/// each.
pub proof fn window_shows_pixels(
    src: Seq<u8>,
    img: (u32, u32),
    win: (u32, u32),
    pan: (i32, i32),
    x: int,
    y: int,
    c: int,
)
    requires
        0 <= x < win.0,
        0 <= y < win.1,
        0 <= c < 4,
    ensures
        0 <= flat_index(x, y, win.0 as int) * 4 + c < frame_len(win),
        windowed(src, img, win, pan)[flat_index(x, y, win.0 as int) * 4 + c] == window_pixel(
            src,
            img,
            win,
            pan,
            x,
            y,
            c,
        ),
{
    pixel_to_byte(x, y, c, win.0 as int);
    row_bounds(x, 1, y, win.0 as int, win.1 as int);
}

/// Where the image is no larger than the window on both axes and the pan is
/// held to its limit, the window shows the whole image, centred: it lies
/// `(win - img) / 2` pixels from the left and from the top, and every byte
/// around it is zero.
pub proof fn small_image_is_centered(
    src: Seq<u8>,
    img: (u32, u32),
    win: (u32, u32),
    pan: (i32, i32),
    x: int,
    y: int,
    c: int,
)
    requires
        img.0 <= win.0,
        img.1 <= win.1,
        0 <= x < win.0,
        0 <= y < win.1,
        0 <= c < 4,
    ensures
        ({
            let held = (
                clamped_offset(pan.0 as int, img.0 as int, win.0 as int) as i32,
                clamped_offset(pan.1 as int, img.1 as int, win.1 as int) as i32,
            );
            let left = (win.0 - img.0) / 2;
            let top = (win.1 - img.1) / 2;
            let k = flat_index(x, y, win.0 as int) * 4 + c;
            &&& held == (0i32, 0i32)
            &&& padding(img.0 as int, win.0 as int) == left
            &&& padding(img.1 as int, win.1 as int) == top
            &&& 0 <= k < frame_len(win)
            &&& windowed(src, img, win, held)[k] == if left <= x < left + img.0 && top <= y < top
                + img.1 {
                src[flat_index(x - left, y - top, img.0 as int) * 4 + c]
            } else {
                0u8
            }
        }),
{
    window_shows_pixels(src, img, win, (0, 0), x, y, c);
}

/// Where the image is no smaller than the window on both axes and the pan
/// is within its limits, the window is filled with image: its pixel at
/// column `x`, row `y` is the image's pixel that many columns and rows from
/// where the span starts.
pub proof fn large_image_fills_the_window(
    src: Seq<u8>,
    img: (u32, u32),
    win: (u32, u32),
    pan: (i32, i32),
    x: int,
    y: int,
    c: int,
)
    requires
        win.0 <= img.0,
        win.1 <= img.1,
        -pan_limit(img.0 as int, win.0 as int) <= pan.0 <= pan_limit(img.0 as int, win.0 as int),
        -pan_limit(img.1 as int, win.1 as int) <= pan.1 <= pan_limit(img.1 as int, win.1 as int),
        0 <= x < win.0,
        0 <= y < win.1,
        0 <= c < 4,
    ensures
        ({
            let left = span_start(img.0 as int, win.0 as int, pan.0 as int);
            let top = span_start(img.1 as int, win.1 as int, pan.1 as int);
            let k = flat_index(x, y, win.0 as int) * 4 + c;
            &&& 0 <= left <= img.0 - win.0
            &&& 0 <= top <= img.1 - win.1
            &&& 0 <= k < frame_len(win)
            &&& windowed(src, img, win, pan)[k] == src[flat_index(left + x, top + y, img.0 as int)
                * 4 + c]
        }),
{
    window_shows_pixels(src, img, win, pan, x, y, c);
}

/// Where the image is larger than the window and the two extents differ by
/// an even number, the pan at its limit shows the image's far edge, and the
/// pan at minus its limit shows the image's near edge.
pub proof fn pan_extremes_reach_edges(img: int, win: int)
    requires
        0 <= win < img,
        (img - win) % 2 == 0,
    ensures
        span_start(img, win, pan_limit(img, win)) == img - win,
        span_start(img, win, -pan_limit(img, win)) == 0,
        span_len(img, win, pan_limit(img, win)) == win,
        span_len(img, win, -pan_limit(img, win)) == win,
{
}

/// The same for any two extents of which the image's is the larger: the pan
/// at its limit stops one short of the far edge where the image's extent
/// is odd and the window's even, and the pan at minus its limit one short
/// of the near edge where the image's is even and the window's odd.
pub proof fn pan_extremes_in_general(img: int, win: int)
    requires
        0 <= win < img,
    ensures
        span_start(img, win, pan_limit(img, win)) == img - win - (if img % 2 == 1 && win % 2 == 0 {
            1int
        } else {
            0int
        }),
        span_start(img, win, -pan_limit(img, win)) == (if img % 2 == 0 && win % 2 == 1 {
            1int
        } else {
            0int
        }),
        span_len(img, win, pan_limit(img, win)) == win,
        span_len(img, win, -pan_limit(img, win)) == win,
{
}

/// A pan held to its limit keeps the whole window on the image, where the
/// image is larger, and shows the whole image, where it is not.
pub proof fn clamped_pan_stays_on_image(img: int, win: int, offset: int)
    requires
        0 <= img,
        0 <= win,
    ensures
        ({
            let held = clamped_offset(offset, img, win);
            &&& -pan_limit(img, win) <= held <= pan_limit(img, win)
            &&& img > win ==> span_len(img, win, held) == win
            &&& img <= win ==> held == 0 && span_start(img, win, held) == 0 && span_len(
                img,
                win,
                held,
            ) == img
        }),
{
}

} // verus!
