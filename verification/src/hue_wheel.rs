//! The interaction of the hue wheel popup: the outer ring sets the hue, the
//! centre disc the saturation. The zone a drag starts in is locked for the
//! whole gesture; the popup closes on Escape or on a press outside it, except
//! in the frame that opened it and during a drag.
//!
//! Geometry (distances from the centre) is measured by the window; the
//! decisions here take its results.

use vstd::prelude::*;

verus! {

/// The zone a drag started in.
#[derive(Debug, Clone, Copy, PartialEq, Eq, Structural)]
pub enum HueDragZone {
    /// Outside both zones, or no drag.
    NoZone,
    Ring,
    Center,
}

impl Default for HueDragZone {
    fn default() -> (r: Self)
        ensures
            r == HueDragZone::NoZone,
    {
        HueDragZone::NoZone
    }
}

/// The part of the popup under the pointer.
#[derive(Debug, Clone, Copy, PartialEq, Eq, Structural)]
pub enum HueHoverZone {
    /// Over no interactive part.
    NoZone,
    /// The outer ring (hue).
    Ring,
    /// The centre disc (saturation).
    Center,
    /// The four preset swatches.
    Palette,
    /// The five derived-phase swatches (display only).
    Phase,
}

impl Default for HueHoverZone {
    fn default() -> (r: Self)
        ensures
            r == HueHoverZone::NoZone,
    {
        HueHoverZone::NoZone
    }
}

/// The zone of a point: the centre disc when it lies within it, else the
/// ring when it lies within the outer edge, else none.
pub fn drag_zone_at(in_center: bool, in_ring: bool) -> (r: HueDragZone)
    ensures
        r == (if in_center {
            HueDragZone::Center
        } else if in_ring {
            HueDragZone::Ring
        } else {
            HueDragZone::NoZone
        }),
{
    if in_center {
        HueDragZone::Center
    } else if in_ring {
        HueDragZone::Ring
    } else {
        HueDragZone::NoZone
    }
}

/// The hover zone of a point of the wheel, by the same rule.
pub fn hover_zone_at(in_center: bool, in_ring: bool) -> (r: HueHoverZone)
    ensures
        r == (if in_center {
            HueHoverZone::Center
        } else if in_ring {
            HueHoverZone::Ring
        } else {
            HueHoverZone::NoZone
        }),
{
    if in_center {
        HueHoverZone::Center
    } else if in_ring {
        HueHoverZone::Ring
    } else {
        HueHoverZone::NoZone
    }
}

/// The open/closed and drag state of the popup.
#[derive(Debug, Clone, Copy, PartialEq, Eq, Structural)]
pub struct HuePopup {
    pub show: bool,
    pub dragging: bool,
    pub drag_zone: HueDragZone,
    /// Set in the frame the button opened (or closed) the popup, so that the
    /// same click does not count as a press outside.
    pub just_toggled: bool,
}

impl Default for HuePopup {
    fn default() -> (r: Self)
        ensures
            r == (HuePopup {
                show: false,
                dragging: false,
                drag_zone: HueDragZone::NoZone,
                just_toggled: false,
            }),
    {
        HuePopup { show: false, dragging: false, drag_zone: HueDragZone::NoZone, just_toggled: false }
    }
}

/// The popup after the swatch button is clicked.
pub open spec fn toggled(p: HuePopup) -> HuePopup {
    HuePopup { show: !p.show, just_toggled: true, ..p }
}

/// The popup at the end of a frame.
pub open spec fn after_frame(p: HuePopup, escape: bool, pressed_outside: bool) -> HuePopup {
    HuePopup {
        show: p.show && !escape && !(!p.just_toggled && !p.dragging && pressed_outside),
        just_toggled: false,
        ..p
    }
}

impl HuePopup {
    /// The swatch button was clicked: open or close, and latch the frame.
    pub fn toggle(&mut self)
        ensures
            *final(self) == toggled(*old(self)),
    {
        self.show = !self.show;
        self.just_toggled = true;
    }

    /// A drag starts at a point: its zone is locked for the gesture, and the
    /// popup counts as dragging when the zone is one of the two.
    pub fn begin_drag(&mut self, in_center: bool, in_ring: bool)
        ensures
            final(self).drag_zone == (if in_center {
                HueDragZone::Center
            } else if in_ring {
                HueDragZone::Ring
            } else {
                HueDragZone::NoZone
            }),
            final(self).dragging == (final(self).drag_zone != HueDragZone::NoZone),
            final(self).show == old(self).show,
            final(self).just_toggled == old(self).just_toggled,
    {
        self.drag_zone = drag_zone_at(in_center, in_ring);
        self.dragging = self.drag_zone != HueDragZone::NoZone;
    }

    /// The drag ended: returns the zone whose value is to be saved (hue for the
    /// ring, saturation for the centre) and clears the zone.
    pub fn finish_drag(&mut self) -> (r: HueDragZone)
        ensures
            r == old(self).drag_zone,
            *final(self) == (HuePopup { drag_zone: HueDragZone::NoZone, ..*old(self) }),
    {
        let z = self.drag_zone;
        self.drag_zone = HueDragZone::NoZone;
        z
    }

    /// In a frame where the pointer is not dragging, the popup is not dragging.
    pub fn not_dragged(&mut self)
        ensures
            *final(self) == (HuePopup { dragging: false, ..*old(self) }),
    {
        self.dragging = false;
    }

    /// The end of a frame: Escape closes; a press outside closes unless the
    /// popup was toggled in this frame or a drag is under way; the latch is
    /// then cleared.
    pub fn end_frame(&mut self, escape: bool, pressed_outside: bool)
        ensures
            *final(self) == after_frame(*old(self), escape, pressed_outside),
    {
        if escape {
            self.show = false;
        }
        if !self.just_toggled && !self.dragging && pressed_outside {
            self.show = false;
        }
        self.just_toggled = false;
    }
}

/// The click that opens the popup is not taken for a press outside it: the
/// popup is still open at the end of that frame (unless Escape was pressed);
/// in a later frame without a drag, a press outside closes it; Escape always
/// closes it.
pub proof fn lemma_open_click_survives(p: HuePopup, pressed_outside: bool)
    requires
        !p.show,
    ensures
        after_frame(toggled(p), false, pressed_outside).show,
        !p.dragging ==> !after_frame(after_frame(toggled(p), false, pressed_outside), false, true).show,
        forall|q: HuePopup, o: bool| !(#[trigger] after_frame(q, true, o)).show,
{
}

} // verus!
