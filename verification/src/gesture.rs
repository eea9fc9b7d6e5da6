//! What a pointer gesture on the video window does. The bottom-right resize
//! corner wins over a double click, which wins over a drag anywhere else.

use vstd::prelude::*;

verus! {

/// The window action that a gesture asks for.
#[derive(Debug, Clone, Copy, PartialEq, Eq, Structural)]
pub enum WindowGesture {
    /// Resize the window from its bottom-right corner.
    BeginResize,
    /// Enter or leave full screen.
    ToggleFullscreen,
    /// Move the window.
    StartDrag,
    /// Nothing to do.
    Nothing,
}

/// The action of one frame's pointer events: a drag that started on the
/// resize corner, else a double click, else a drag that started anywhere on
/// the video.
pub open spec fn gesture_of(resize_drag_started: bool, double_clicked: bool, drag_started: bool) -> WindowGesture {
    if resize_drag_started {
        WindowGesture::BeginResize
    } else if double_clicked {
        WindowGesture::ToggleFullscreen
    } else if drag_started {
        WindowGesture::StartDrag
    } else {
        WindowGesture::Nothing
    }
}

/// Whether the window is full screen after the action.
pub open spec fn fullscreen_after_spec(gesture: WindowGesture, is_fullscreen: bool) -> bool {
    if gesture == WindowGesture::ToggleFullscreen {
        !is_fullscreen
    } else {
        is_fullscreen
    }
}

/// The action of one frame's pointer events.
pub fn window_gesture(resize_drag_started: bool, double_clicked: bool, drag_started: bool) -> (r: WindowGesture)
    ensures
        r == gesture_of(resize_drag_started, double_clicked, drag_started),
{
    if resize_drag_started {
        WindowGesture::BeginResize
    } else if double_clicked {
        WindowGesture::ToggleFullscreen
    } else if drag_started {
        WindowGesture::StartDrag
    } else {
        WindowGesture::Nothing
    }
}

/// Whether the window is full screen after the action.
pub fn fullscreen_after(gesture: WindowGesture, is_fullscreen: bool) -> (r: bool)
    ensures
        r == fullscreen_after_spec(gesture, is_fullscreen),
{
    match gesture {
        WindowGesture::ToggleFullscreen => !is_fullscreen,
        _ => is_fullscreen,
    }
}

/// Full screen changes only on a double click away from the resize corner,
/// and two such double clicks leave it as it was.
pub proof fn lemma_double_click_twice_restores(
    resize_drag_started: bool,
    double_clicked: bool,
    drag_started: bool,
    is_fullscreen: bool,
)
    ensures
        ({
            let g = gesture_of(resize_drag_started, double_clicked, drag_started);
            &&& (fullscreen_after_spec(g, is_fullscreen) != is_fullscreen <==> (double_clicked
                && !resize_drag_started))
            &&& fullscreen_after_spec(g, fullscreen_after_spec(g, is_fullscreen)) == is_fullscreen
        }),
{
}

} // verus!
