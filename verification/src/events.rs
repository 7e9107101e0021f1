//! Window and render-target bookkeeping: what a window event leads to, and
//! when the off-screen render target has to be rebuilt.

use vstd::prelude::*;

verus! {

/// The window events the game reacts to.
#[derive(Clone, Copy, Debug, PartialEq, Eq, Structural)]
pub enum WindowEventKind {
    CloseRequested,
    RedrawRequested,
    Other,
}

/// What the window handler does with an event.
#[derive(Clone, Copy, Debug, PartialEq, Eq, Structural)]
pub enum WindowAction {
    /// Nothing.
    Ignore,
    /// Leave the event loop.
    Exit,
    /// Run the user interface for a frame and ask for the next redraw.
    Redraw,
}

/// The handling of an event: events the user interface consumed go no
/// further; a close request exits; a redraw request draws a frame when a
/// window is open; everything else is ignored.
pub open spec fn spec_window_action(
    consumed_by_ui: bool,
    event: WindowEventKind,
    window_open: bool,
) -> WindowAction {
    if consumed_by_ui {
        WindowAction::Ignore
    } else {
        match event {
            WindowEventKind::CloseRequested => WindowAction::Exit,
            WindowEventKind::RedrawRequested => if window_open {
                WindowAction::Redraw
            } else {
                WindowAction::Ignore
            },
            WindowEventKind::Other => WindowAction::Ignore,
        }
    }
}

/// Decides what the window handler does with an event.
pub fn window_event_action(consumed_by_ui: bool, event: WindowEventKind, window_open: bool) -> (a:
    WindowAction)
    ensures
        a == spec_window_action(consumed_by_ui, event, window_open),
{
    if consumed_by_ui {
        return WindowAction::Ignore;
    }
    match event {
        WindowEventKind::CloseRequested => WindowAction::Exit,
        WindowEventKind::RedrawRequested => {
            if window_open {
                WindowAction::Redraw
            } else {
                WindowAction::Ignore
            }
        },
        WindowEventKind::Other => WindowAction::Ignore,
    }
}

/// The size of the off-screen render target.
#[derive(Clone, Copy, Debug, PartialEq, Eq, Structural)]
pub struct FramebufferSize {
    pub width: i32,
    pub height: i32,
}

/// Whether a request for `w` x `h` differs from the recorded size.
pub open spec fn size_changes(size: FramebufferSize, w: i32, h: i32) -> bool {
    !(size.width == w && size.height == h)
}

impl FramebufferSize {
    /// Records a requested size. Returns whether it differs from the
    /// current one, in which case the render target must be rebuilt at the
    /// new size; the recorded size is the requested one afterwards.
    pub fn resize(&mut self, new_width: i32, new_height: i32) -> (changed: bool)
        ensures
            changed == size_changes(*old(self), new_width, new_height),
            *final(self) == (FramebufferSize { width: new_width, height: new_height }),
    {
        if self.width == new_width && self.height == new_height {
            return false;
        }
        self.width = new_width;
        self.height = new_height;
        true
    }
}

/// Asking twice in a row for the same size rebuilds the render target at
/// most once: after a resize to `w` x `h`, the same request changes nothing.
pub proof fn lemma_resize_settles(w: i32, h: i32)
    ensures
        !size_changes(FramebufferSize { width: w, height: h }, w, h),
{
}

} // verus!
