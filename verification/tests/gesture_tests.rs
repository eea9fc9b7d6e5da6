use mado::gesture::{fullscreen_after, window_gesture, WindowGesture};

#[test]
fn resize_corner_wins_over_double_click_and_drag() {
    assert_eq!(window_gesture(true, true, true), WindowGesture::BeginResize);
    assert_eq!(window_gesture(true, false, false), WindowGesture::BeginResize);
    assert_eq!(window_gesture(false, true, true), WindowGesture::ToggleFullscreen);
    assert_eq!(window_gesture(false, false, true), WindowGesture::StartDrag);
    assert_eq!(window_gesture(false, false, false), WindowGesture::Nothing);
}

#[test]
fn double_click_toggles_fullscreen_twice_back() {
    let g = window_gesture(false, true, false);
    let once = fullscreen_after(g, false);
    assert!(once);
    assert!(!fullscreen_after(g, once));
    assert!(fullscreen_after(WindowGesture::StartDrag, true));
    assert!(!fullscreen_after(WindowGesture::BeginResize, false));
}
