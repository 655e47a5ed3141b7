//! Core of a small image viewer: frames, a zoomable and pannable view of
//! them, the schedule that drives animated sequences, and what the viewer
//! does on each event of its window.
//!
//! Nothing here opens a window, reads a file or touches a surface. The
//! program around this library does that: it decodes an image and hands the
//! pixels over, presents the buffer that a view gives it, and reports what
//! its window and its timer tell it.

pub mod anim;
pub mod img;
pub mod view;
pub mod window;
pub mod zoom;

pub use anim::{Animator, Outcome, Phase, RequestNextFrame, Task};
pub use img::{Delay, Image};
pub use view::ImageView;
pub use window::{buffer_window, centered_span, flat_idx};
pub use zoom::Zoom;

use vstd::prelude::*;

verus! {

/// The keys that the viewer listens to, and all the others.
#[derive(Clone, Copy, Debug, PartialEq, Eq, Structural)]
pub enum Key {
    F,
    Escape,
    Q,
    Other,
}

/// What the window reports.
#[derive(Clone, Copy, Debug, PartialEq, Eq, Structural)]
pub enum Event {
    /// The window gained the focus (`true`) or lost it.
    Focused(bool),
    /// The animation asks for the next frame of the sequence.
    NextFrame,
    /// The window has to be drawn again.
    RedrawRequested,
    /// A key went down.
    KeyPressed(Key),
    /// The window is asked to close.
    CloseRequested,
    /// Anything else.
    Other,
}

/// What the viewer does about an event.
#[derive(Clone, Copy, Debug, PartialEq, Eq, Structural)]
pub enum Action {
    /// Hand the focus back to whatever had it before.
    ReturnFocus,
    /// Show the next frame, and present it.
    Advance,
    /// Present what the view shows.
    Draw,
    /// Go fullscreen, or come back from it.
    ToggleFullscreen,
    /// Leave the event loop.
    Exit,
    /// Nothing.
    Nothing,
}

/// How the window is to be shown.
#[derive(Clone, Copy, Debug, PartialEq, Eq, Structural)]
pub enum Fullscreen {
    /// As an ordinary window.
    Off,
    /// Borderless, over the whole of the monitor that the window is on.
    Borderless,
}

/// What the viewer does about `event`. A window that is not to take the
/// focus hands it back as soon as it gets it; the animation's request shows
/// the next frame; a request to redraw presents the view; every other event
/// is left to `handle_event`.
pub fn on_event(should_focus: bool, event: Event) -> (action: Action)
    ensures
        action == Action::ReturnFocus <==> event == Event::Focused(true) && !should_focus,
        action == Action::Advance <==> event == Event::NextFrame,
        action == Action::Draw <==> event == Event::RedrawRequested,
        action == Action::ToggleFullscreen <==> event == Event::KeyPressed(Key::F),
        action == Action::Exit <==> event == Event::CloseRequested || event == Event::KeyPressed(
            Key::Escape,
        ) || event == Event::KeyPressed(Key::Q),
{
    match event {
        Event::Focused(true) => {
            if !should_focus {
                Action::ReturnFocus
            } else {
                Action::Nothing
            }
        },
        // Go to the next frame in a sequence.
        Event::NextFrame => Action::Advance,
        Event::RedrawRequested => Action::Draw,
        _ => handle_event(event),
    }
}

/// What the viewer does about keys and the request to close: `F` toggles
/// fullscreen, `Esc` and `Q` exit, and so does the request to close.
pub fn handle_event(event: Event) -> (action: Action)
    ensures
        action == Action::ToggleFullscreen <==> event == Event::KeyPressed(Key::F),
        action == Action::Exit <==> event == Event::CloseRequested || event == Event::KeyPressed(
            Key::Escape,
        ) || event == Event::KeyPressed(Key::Q),
        action == Action::ToggleFullscreen || action == Action::Exit || action == Action::Nothing,
{
    match event {
        // Exit on Esc or Q
        Event::KeyPressed(key) => match key {
            Key::F => Action::ToggleFullscreen,
            Key::Escape | Key::Q => Action::Exit,
            _ => Action::Nothing,
        },
        Event::CloseRequested => Action::Exit,
        _ => Action::Nothing,
    }
}

/// What to do once a frame has been presented, or could not be: a failure
/// ends the viewer, for there is no trying again.
pub fn after_present(presented: bool) -> (action: Action)
    ensures
        action == (if presented {
            Action::Nothing
        } else {
            Action::Exit
        }),
{
    if presented {
        Action::Nothing
    } else {
        Action::Exit
    }
}

/// How the window is to be shown after a toggle: as a window if it was
/// fullscreen, fullscreen if it was not.
pub fn toggle_fullscreen(is_fullscreen: bool) -> (mode: Fullscreen)
    ensures
        mode == (if is_fullscreen {
            Fullscreen::Off
        } else {
            Fullscreen::Borderless
        }),
{
    if is_fullscreen {
        Fullscreen::Off
    } else {
        Fullscreen::Borderless
    }
}

} // verus!
