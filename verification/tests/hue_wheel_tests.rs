use mado::hue_wheel::{drag_zone_at, hover_zone_at, HueDragZone, HueHoverZone, HuePopup};

#[test]
fn zones_prefer_center() {
    assert_eq!(drag_zone_at(true, true), HueDragZone::Center);
    assert_eq!(drag_zone_at(false, true), HueDragZone::Ring);
    assert_eq!(drag_zone_at(false, false), HueDragZone::NoZone);
    assert_eq!(hover_zone_at(true, false), HueHoverZone::Center);
    assert_eq!(hover_zone_at(false, true), HueHoverZone::Ring);
    assert_eq!(hover_zone_at(false, false), HueHoverZone::NoZone);
    assert_eq!(HueDragZone::default(), HueDragZone::NoZone);
    assert_eq!(HueHoverZone::default(), HueHoverZone::NoZone);
}

#[test]
fn opening_click_is_not_a_press_outside() {
    let mut p = HuePopup::default();
    p.toggle();
    p.end_frame(false, true);
    assert!(p.show);
    assert!(!p.just_toggled);
    p.end_frame(false, true);
    assert!(!p.show);
}

#[test]
fn escape_closes_and_drag_keeps_open() {
    let mut p = HuePopup::default();
    p.toggle();
    p.end_frame(false, false);
    p.begin_drag(false, true);
    assert!(p.dragging);
    assert_eq!(p.drag_zone, HueDragZone::Ring);
    p.end_frame(false, true);
    assert!(p.show);
    assert_eq!(p.finish_drag(), HueDragZone::Ring);
    assert_eq!(p.drag_zone, HueDragZone::NoZone);
    p.not_dragged();
    assert!(!p.dragging);
    p.end_frame(true, false);
    assert!(!p.show);
}

#[test]
fn drag_outside_wheel_is_not_dragging() {
    let mut p = HuePopup::default();
    p.begin_drag(false, false);
    assert!(!p.dragging);
    assert_eq!(p.finish_drag(), HueDragZone::NoZone);
}
