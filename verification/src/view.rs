//! The view: zoom, pan and the pixels that a window of a given size shows of
//! an image.
//!
//! The view owns the buffer that is to be presented. Whoever holds the
//! surface takes the buffer from `draw` or `advance` and presents it.

use crate::img::{
    advanced_moves_cursor, can_resample, fit_ratio, fit_ratio_of, resample_fits, scaled_keeps_place,
    scaled_size, Image, ImageModel,
};
use crate::window::{
    buffer_window, clamp_offset, clamped_offset, frame_len, pan_limit, shift_offset, span_len,
    span_start, windowed,
};
use crate::zoom::{factor_one_keeps_dims, step_in_then_out, Zoom};
use vstd::prelude::*;

verus! {

/// A canvas that a window can show: its buffer is no longer than memory
/// allows.
pub open spec fn presentable(size: (u32, u32)) -> bool {
    frame_len(size) <= usize::MAX
}

/// Whether a canvas of `size` is one that a window can show.
pub fn is_presentable(size: (u32, u32)) -> (ok: bool)
    ensures
        ok == presentable(size),
{
    assert(0 <= size.0 * size.1 <= 0xffff_ffff * 0xffff_ffff) by (nonlinear_arith)
        requires
            0 <= size.0 <= 0xffff_ffff,
            0 <= size.1 <= 0xffff_ffff,
    ;
    let len: u128 = (size.0 as u128) * (size.1 as u128) * 4;
    len <= usize::MAX as u128
}

/// What a view holds.
#[verifier::ext_equal]
pub struct ViewModel {
    /// Current zoom level.
    pub zoom: Zoom,
    /// How the image is panned in the view, center-anchored.
    pub pan: (i32, i32),
    /// Width and height of the window.
    pub window: (u32, u32),
    /// The pixels that the window shows.
    pub frame: Seq<u8>,
    /// The (source) image we're displaying.
    pub image: ImageModel,
    /// The image at the current zoom, once the zoom has been set.
    pub scaled: Option<ImageModel>,
}

impl ViewModel {
    /// The image that the window shows: the scaled one where there is one,
    /// else the source.
    pub open spec fn active(self) -> ImageModel {
        match self.scaled {
            Some(scaled) => scaled,
            None => self.image,
        }
    }

    /// The largest pan on each axis.
    pub open spec fn pan_limits(self) -> (int, int) {
        (
            pan_limit(self.active().size.0 as int, self.window.0 as int),
            pan_limit(self.active().size.1 as int, self.window.1 as int),
        )
    }

    /// The pan is within its limits.
    pub open spec fn pan_held(self) -> bool {
        &&& -self.pan_limits().0 <= self.pan.0 <= self.pan_limits().0
        &&& -self.pan_limits().1 <= self.pan.1 <= self.pan_limits().1
    }

    /// The scaled image is the source at the current zoom, with the same
    /// frame due; before the zoom is first set the factor is one.
    pub open spec fn cache_holds(self) -> bool {
        match self.scaled {
            Some(scaled) => scaled == self.image.scaled(self.zoom),
            None => self.zoom.is_one(),
        }
    }

    /// The view can be drawn: the images are well formed, the scaled image
    /// goes with the zoom, and window and image are such as can be shown.
    pub open spec fn ready(self) -> bool {
        &&& self.zoom.wf()
        &&& self.image.wf()
        &&& self.active().wf()
        &&& self.cache_holds()
        &&& self.can_zoom_to(self.zoom)
        &&& presentable(self.window)
        &&& presentable(self.active().size)
    }

    /// The view is in order: it can be drawn, the buffer fills the window,
    /// and the pan is within its limits.
    pub open spec fn wf(self) -> bool {
        &&& self.ready()
        &&& self.frame.len() == frame_len(self.window)
        &&& self.pan_held()
    }

    /// The view once it has been drawn with a pan that is to be `pan_x` and
    /// `pan_y`: the pan held to its limits, the window showing the source's
    /// frame that was due, at the current zoom, and the frame after it due
    /// in the source and in its scaled copy alike.
    pub open spec fn redrawn_at(self, pan_x: int, pan_y: int) -> ViewModel {
        let active = self.active();
        let pan = (
            clamped_offset(pan_x, active.size.0 as int, self.window.0 as int) as i32,
            clamped_offset(pan_y, active.size.1 as int, self.window.1 as int) as i32,
        );
        ViewModel {
            pan,
            frame: windowed(active.current(), active.size, self.window, pan),
            image: self.image.advanced(),
            scaled: match self.scaled {
                Some(scaled) => Some(scaled.advanced()),
                None => None,
            },
            ..self
        }
    }

    /// The view once it has been drawn again, with the pan that it has.
    pub open spec fn redrawn(self) -> ViewModel {
        self.redrawn_at(self.pan.0 as int, self.pan.1 as int)
    }

    /// The view when it is first made.
    pub open spec fn initial(image: ImageModel, window: (u32, u32)) -> ViewModel {
        (ViewModel {
            zoom: Zoom::spec_one(),
            pan: (0, 0),
            window,
            frame: Seq::empty(),
            image,
            scaled: None,
        }).redrawn()
    }

    /// The view at another zoom: the source scaled anew, and drawn again.
    pub open spec fn zoomed(self, zoom: Zoom) -> ViewModel {
        (ViewModel { zoom, scaled: Some(self.image.scaled(zoom)), ..self }).redrawn()
    }

    /// The view panned by `dx` and `dy`, and drawn again.
    pub open spec fn panned(self, dx: int, dy: int) -> ViewModel {
        self.redrawn_at(self.pan.0 + dx, self.pan.1 + dy)
    }

    /// A tenth of the active image's width and of its height: one step of
    /// pan.
    pub open spec fn pan_step(self) -> (int, int) {
        (self.active().size.0 as int / 10, self.active().size.1 as int / 10)
    }

    /// The zoom at which the source fits the window `window`: the smaller of
    /// the two ratios of window to image, or the zoom as it is where the
    /// image has no size to take a ratio of.
    pub open spec fn fit_zoom(self, window: (u32, u32)) -> Zoom {
        match fit_ratio_of(self.image.size, window) {
            Some((n, d)) => Zoom::spec_from_ratio(n, d),
            None => self.zoom,
        }
    }

    /// The view in a window of another size. With `fit_image` the zoom is
    /// set so that the image fits the window, and the view is drawn again;
    /// without, the buffer is cleared and the pan held to its new limits.
    pub open spec fn resized(self, window: (u32, u32), fit_image: bool) -> ViewModel {
        if fit_image {
            (ViewModel { window, ..self }).zoomed(self.fit_zoom(window))
        } else {
            ViewModel {
                window,
                frame: Seq::new(frame_len(window) as nat, |k: int| 0u8),
                pan: (
                    clamped_offset(
                        self.pan.0 as int,
                        self.active().size.0 as int,
                        window.0 as int,
                    ) as i32,
                    clamped_offset(
                        self.pan.1 as int,
                        self.active().size.1 as int,
                        window.1 as int,
                    ) as i32,
                ),
                ..self
            }
        }
    }

    /// The source can be scaled to the zoom `zoom` and shown: the scaled
    /// canvas is one that a window can show, and scaling to it is within
    /// memory.
    pub open spec fn can_zoom_to(self, zoom: Zoom) -> bool {
        &&& zoom.wf()
        &&& presentable(scaled_size(self.image.size, zoom))
        &&& scaled_size(self.image.size, zoom) != self.image.size ==> resample_fits(
            self.image.size,
            scaled_size(self.image.size, zoom),
        )
    }
}

/// A view of an image: what the window shows of it at the current zoom and
/// pan.
///
/// Every view that `new` has made is in order (`wf`), and every method
/// keeps it so.
pub struct ImageView {
    /// Current zoom level.
    zoom: Zoom,
    /// How the image is panned in the view, center-anchored.
    pan: (i32, i32),
    /// What we draw the image to.
    frame: Vec<u8>,
    /// Width and height of what we draw to.
    window: (u32, u32),
    /// The (source) image we're displaying.
    image: Image,
    /// If the image is zoomed, we cache the scaled image here.
    scaled: Option<Image>,
}

impl View for ImageView {
    type V = ViewModel;

    closed spec fn view(&self) -> ViewModel {
        ViewModel {
            zoom: self.zoom,
            pan: self.pan,
            window: self.window,
            frame: self.frame@,
            image: self.image@,
            scaled: match self.scaled {
                Some(scaled) => Some(scaled@),
                None => None,
            },
        }
    }
}

impl ImageView {
    /// The view is in order.
    pub open spec fn wf(&self) -> bool {
        self@.wf()
    }

    /// A view of `image` in a window of `width` by `height`, at the factor
    /// one and without pan, showing the image's first frame.
    pub fn new(image: Image, width: u32, height: u32) -> (view: ImageView)
        requires
            image.wf(),
            presentable(image@.size),
            presentable((width, height)),
        ensures
            view@ == ViewModel::initial(image@, (width, height)),
            view.wf(),
    {
        let ghost source = image@;
        proof {
            factor_one_keeps_dims(Zoom::spec_one(), source.size.0);
            factor_one_keeps_dims(Zoom::spec_one(), source.size.1);
            advanced_moves_cursor(source);
        }
        let mut image = image;
        let mut frame: Vec<u8> = Vec::new();
        let pan = (0, 0);
        view_buffer_window(&mut frame, (width, height), &mut image, pan);
        let view = ImageView {
            zoom: Zoom::one(),
            pan,
            frame,
            window: (width, height),
            image,
            scaled: None,
        };
        proof {
            assert(view@ =~~= ViewModel::initial(source, (width, height)));
        }
        view
    }

    /// The pixels that the window shows, row by row, four bytes each, for
    /// whoever presents them. The view stays as it is.
    pub fn draw(&self) -> (frame: &[u8])
        ensures
            frame@ == self@.frame,
    {
        self.frame.as_slice()
    }

    /// Advance the image frame: takes the next frame from the source, draws
    /// it at the current zoom, and returns the window's pixels for
    /// presenting.
    pub fn advance(&mut self) -> (frame: &[u8])
        requires
            old(self).wf(),
        ensures
            final(self)@ == old(self)@.redrawn(),
            final(self).wf(),
            frame@ == final(self)@.frame,
    {
        self.update();
        self.frame.as_slice()
    }

    /// Write the current transformed image view to the buffer, and move on
    /// by one frame in the source and in its scaled copy.
    fn update(&mut self)
        requires
            old(self)@.ready(),
        ensures
            final(self)@ == old(self)@.redrawn(),
            final(self).wf(),
    {
        proof {
            scaled_keeps_place(self@.image, self@.zoom);
            advanced_moves_cursor(self@.image);
        }
        self.clamp_pan();
        match &mut self.scaled {
            Some(image) => {
                view_buffer_window(&mut self.frame, self.window, image, self.pan);
                // The source keeps step with its scaled copy.
                let _ = self.image.next_frame();
            },
            None => view_buffer_window(&mut self.frame, self.window, &mut self.image, self.pan),
        }
    }

    /// Sets the window's size. With `fit_image` the zoom becomes that at
    /// which the image fits the window, and the view is drawn again; without
    /// it the buffer is cleared and waits for the next drawing.
    pub fn resize(&mut self, width: u32, height: u32, fit_image: bool)
        requires
            old(self).wf(),
            presentable((width, height)),
            fit_image ==> old(self)@.can_zoom_to(old(self)@.fit_zoom((width, height))),
        ensures
            final(self)@ == old(self)@.resized((width, height), fit_image),
            final(self).wf(),
    {
        self.window = (width, height);
        if fit_image {
            let zoom = match fit_ratio(self.image.size(), (width, height)) {
                Some((n, d)) => Zoom::from_ratio(n, d),
                None => self.zoom,
            };
            self.set_zoom(zoom);
        } else {
            assert(width * height <= width * height * 4) by (nonlinear_arith)
                requires
                    width >= 0,
                    height >= 0,
            ;
            self.frame = vec![0u8; width as usize * height as usize * 4];
            self.clamp_pan();
            proof {
                assert(self@.frame =~= Seq::new(
                    frame_len((width, height)) as nat,
                    |k: int| 0u8,
                ));
            }
        }
    }

    /// Whether `zoom` is a zoom that the view can take.
    pub fn can_zoom(&self, zoom: Zoom) -> (ok: bool)
        ensures
            ok == self@.can_zoom_to(zoom),
    {
        if zoom.unit == 0 {
            return false;
        }
        let size = self.image.size();
        let target = crate::img::scale_size(size, zoom);
        is_presentable(target) && ((target.0 == size.0 && target.1 == size.1) || can_resample(
            size,
            target,
        ))
    }

    /// Whether the window can be resized to `width` by `height`, with the
    /// image fitted to it or without.
    pub fn can_resize(&self, width: u32, height: u32, fit_image: bool) -> (ok: bool)
        ensures
            ok == (presentable((width, height)) && (fit_image ==> self@.can_zoom_to(
                self@.fit_zoom((width, height)),
            ))),
    {
        if !is_presentable((width, height)) {
            return false;
        }
        if !fit_image {
            return true;
        }
        let zoom = match fit_ratio(self.image.size(), (width, height)) {
            Some((n, d)) => Zoom::from_ratio(n, d),
            None => self.zoom,
        };
        self.can_zoom(zoom)
    }

    /// One step of zoom in: a tenth more.
    pub fn zoom_in(&mut self)
        requires
            old(self).wf(),
            old(self)@.zoom.can_step_in(),
            old(self)@.can_zoom_to(old(self)@.zoom.spec_stepped_in()),
        ensures
            final(self)@ == old(self)@.zoomed(old(self)@.zoom.spec_stepped_in()),
            final(self).wf(),
    {
        self.set_zoom(self.zoom.stepped_in());
    }

    /// One step of zoom out: a tenth less, but not below the minimum.
    pub fn zoom_out(&mut self)
        requires
            old(self).wf(),
            old(self)@.can_zoom_to(old(self)@.zoom.spec_stepped_out()),
        ensures
            final(self)@ == old(self)@.zoomed(old(self)@.zoom.spec_stepped_out()),
            final(self).wf(),
    {
        self.set_zoom(self.zoom.stepped_out());
    }

    /// Sets the zoom, scales the source to it, and draws the view again.
    pub fn set_zoom(&mut self, zoom: Zoom)
        requires
            old(self)@.image.wf(),
            presentable(old(self)@.window),
            old(self)@.can_zoom_to(zoom),
        ensures
            final(self)@ == old(self)@.zoomed(zoom),
            final(self).wf(),
    {
        self.zoom = zoom;
        self.scaled = Some(self.image.scaled(self.zoom));
        self.update();
    }

    /// Pans up by a tenth of the image's height.
    pub fn pan_up(&mut self)
        requires
            old(self).wf(),
        ensures
            final(self)@ == old(self)@.panned(0, -old(self)@.pan_step().1),
            final(self).wf(),
    {
        let (_, height) = self.image_size();
        self.pan_by(0, -((height / 10) as i32));
    }

    /// Pans down by a tenth of the image's height.
    pub fn pan_down(&mut self)
        requires
            old(self).wf(),
        ensures
            final(self)@ == old(self)@.panned(0, old(self)@.pan_step().1),
            final(self).wf(),
    {
        let (_, height) = self.image_size();
        self.pan_by(0, ((height / 10) as i32));
    }

    /// Pans right by a tenth of the image's width.
    pub fn pan_right(&mut self)
        requires
            old(self).wf(),
        ensures
            final(self)@ == old(self)@.panned(old(self)@.pan_step().0, 0),
            final(self).wf(),
    {
        let (width, _) = self.image_size();
        self.pan_by(((width / 10) as i32), 0);
    }

    /// Pans left by a tenth of the image's width.
    pub fn pan_left(&mut self)
        requires
            old(self).wf(),
        ensures
            final(self)@ == old(self)@.panned(-old(self)@.pan_step().0, 0),
            final(self).wf(),
    {
        let (width, _) = self.image_size();
        self.pan_by(-((width / 10) as i32), 0);
    }

    /// Moves the pan by `dx` and `dy`, holds it to its limits, and draws the
    /// view again.
    fn pan_by(&mut self, dx: i32, dy: i32)
        requires
            old(self).wf(),
        ensures
            final(self)@ == old(self)@.panned(dx as int, dy as int),
            final(self).wf(),
    {
        let (width, height) = self.image_size();
        self.pan = (
            shift_offset(self.pan.0, dx, width, self.window.0),
            shift_offset(self.pan.1, dy, height, self.window.1),
        );
        self.update();
    }

    /// Get current image size.
    ///
    /// If the image is scaled, this will give the scaled size.
    pub fn image_size(&self) -> (size: (u32, u32))
        ensures
            size == self@.active().size,
    {
        match &self.scaled {
            Some(image) => image.size(),
            None => self.image.size(),
        }
    }

    /// Limit the pan to the view size.
    fn clamp_pan(&mut self)
        ensures
            final(self)@ == (ViewModel {
                pan: (
                    clamped_offset(
                        old(self)@.pan.0 as int,
                        old(self)@.active().size.0 as int,
                        old(self)@.window.0 as int,
                    ) as i32,
                    clamped_offset(
                        old(self)@.pan.1 as int,
                        old(self)@.active().size.1 as int,
                        old(self)@.window.1 as int,
                    ) as i32,
                ),
                ..old(self)@
            }),
            final(self)@.pan_held(),
    {
        let (im_w, im_h) = self.image_size();
        let (tx_w, tx_h) = self.window;
        self.pan.0 = clamp_offset(self.pan.0, im_w, tx_w);
        self.pan.1 = clamp_offset(self.pan.1, im_h, tx_h);
    }

    /// The current zoom.
    pub fn zoom(&self) -> (zoom: Zoom)
        ensures
            zoom == self@.zoom,
    {
        self.zoom
    }

    /// The current pan, held to its limits.
    pub fn pan(&self) -> (pan: (i32, i32))
        ensures
            pan == self@.pan,
    {
        self.pan
    }

    /// Width and height of the window.
    pub fn size(&self) -> (size: (u32, u32))
        ensures
            size == self@.window,
    {
        self.window
    }

    /// The (source) image we're displaying.
    pub fn image(&self) -> (image: &Image)
        ensures
            image@ == self@.image,
    {
        &self.image
    }
}

/// Extract a window on the image that fits into the buffer,
/// accounting for any pan.
fn view_buffer_window(frame: &mut Vec<u8>, window: (u32, u32), image: &mut Image, pan: (i32, i32))
    requires
        old(image).wf(),
        presentable(old(image)@.size),
        presentable(window),
    ensures
        final(frame)@ == windowed(old(image)@.current(), old(image)@.size, window, pan),
        final(image)@ == old(image)@.advanced(),
        final(image).wf(),
{
    let size = image.size();
    let data = image.next_frame();
    let view = buffer_window(data, size, window, pan);
    *frame = view;
}

/// The image that a view shows has the size of the source at the view's
/// zoom.
pub proof fn active_size_follows_zoom(m: ViewModel)
    requires
        m.wf(),
    ensures
        m.active().size == scaled_size(m.image.size, m.zoom),
{
    if m.scaled is None {
        factor_one_keeps_dims(m.zoom, m.image.size.0);
        factor_one_keeps_dims(m.zoom, m.image.size.1);
    }
}

/// One step of zoom in and one step out again leave the zoom as it was, as
/// long as it was not below the minimum; and with the zoom the size of the
/// image that is shown and the limits of the pan come back.
pub proof fn zoom_in_then_out_restores(m: ViewModel)
    requires
        m.wf(),
        m.zoom.at_least_min(),
        m.zoom.can_step_in(),
    ensures
        ({
            let there = m.zoomed(m.zoom.spec_stepped_in());
            let back = there.zoomed(there.zoom.spec_stepped_out());
            &&& there.can_zoom_to(there.zoom.spec_stepped_out())
            &&& back.zoom == m.zoom
            &&& back.zoom.at_least_min()
            &&& back.active().size == m.active().size
            &&& back.active().size == scaled_size(m.image.size, m.zoom)
            &&& back.pan_limits() == m.pan_limits()
        }),
{
    step_in_then_out(m.zoom);
    active_size_follows_zoom(m);
}

/// At whatever zoom a view is set, the image that shows has the size of the
/// source at that zoom, every side rounded by itself, and the pan lies
/// within the limits that this size and the window give: so these limits
/// depend on nothing but the zoom, the source's size and the window.
pub proof fn zoom_sets_size_and_limits(m: ViewModel, zoom: Zoom)
    ensures
        ({
            let set = m.zoomed(zoom);
            let size = scaled_size(m.image.size, zoom);
            &&& set.zoom == zoom
            &&& set.active().size == size
            &&& set.pan_limits() == (
                pan_limit(size.0 as int, m.window.0 as int),
                pan_limit(size.1 as int, m.window.1 as int),
            )
            &&& set.pan_held()
        }),
{
}

/// In a view that is in order the pan never takes the window off the image:
/// on an axis where the image is larger than the window, the window shows
/// image from edge to edge; where it is not larger, the pan is zero and the
/// whole image shows.
pub proof fn window_stays_on_image(m: ViewModel)
    requires
        m.wf(),
    ensures
        ({
            let img = m.active().size;
            let win = m.window;
            &&& span_start(img.0 as int, win.0 as int, m.pan.0 as int) + span_len(
                img.0 as int,
                win.0 as int,
                m.pan.0 as int,
            ) <= img.0
            &&& span_start(img.1 as int, win.1 as int, m.pan.1 as int) + span_len(
                img.1 as int,
                win.1 as int,
                m.pan.1 as int,
            ) <= img.1
            &&& img.0 > win.0 ==> span_len(img.0 as int, win.0 as int, m.pan.0 as int) == win.0
            &&& img.1 > win.1 ==> span_len(img.1 as int, win.1 as int, m.pan.1 as int) == win.1
            &&& img.0 <= win.0 ==> m.pan.0 == 0 && span_len(
                img.0 as int,
                win.0 as int,
                m.pan.0 as int,
            ) == img.0
            &&& img.1 <= win.1 ==> m.pan.1 == 0 && span_len(
                img.1 as int,
                win.1 as int,
                m.pan.1 as int,
            ) == img.1
        }),
{
}

/// Drawing takes nothing over from the buffer as it was: whatever the window
/// showed before, it shows the same afterwards.
pub proof fn redrawing_forgets_the_buffer(m: ViewModel, stale: Seq<u8>)
    ensures
        (ViewModel { frame: stale, ..m }).redrawn() == m.redrawn(),
{
}

/// A view that can be drawn is in order once it has been drawn.
pub proof fn redrawn_is_in_order(m: ViewModel)
    requires
        m.ready(),
    ensures
        m.redrawn().wf(),
{
    advanced_moves_cursor(m.image);
    advanced_moves_cursor(m.active());
    scaled_keeps_place(m.image, m.zoom);
}

/// Drawing takes the next frame from the source: the source's index goes on
/// as `Image::next_frame` moves it, whether the view holds a scaled copy or
/// not, the copy stays the source at the view's zoom, and what shows is the
/// frame that was due in the source, at that zoom.
pub proof fn drawing_pulls_from_the_source(m: ViewModel)
    requires
        m.ready(),
    ensures
        m.redrawn().image == m.image.advanced(),
        m.redrawn().scaled matches Some(copy) ==> copy == m.redrawn().image.scaled(m.zoom),
        m.redrawn().frame == windowed(
            m.image.scaled(m.zoom).current(),
            m.image.scaled(m.zoom).size,
            m.window,
            m.redrawn().pan,
        ),
{
    scaled_keeps_place(m.image, m.zoom);
    if m.scaled is None {
        factor_one_keeps_dims(m.zoom, m.image.size.0);
        factor_one_keeps_dims(m.zoom, m.image.size.1);
    }
}

/// A pan that is already within its limits is not moved by drawing: a view
/// in order that is drawn again keeps its pan.
pub proof fn redrawing_keeps_pan(m: ViewModel)
    requires
        m.wf(),
    ensures
        m.redrawn().pan == m.pan,
        m.redrawn().zoom == m.zoom,
        m.redrawn().window == m.window,
{
}

} // verus!
