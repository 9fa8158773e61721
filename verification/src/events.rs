//! The touch event model: sample status, single samples, and gestures.

use vstd::prelude::*;

verus! {

/// State of one touch point as reported by the controller.
#[derive(Clone, Copy, Debug, PartialEq, Eq, Structural)]
pub enum TouchStatus {
    Unstarted,
    Released,
    Pressed,
    Moved,
}

/// One touch sample from the hardware driver. Ephemeral: consumed within one
/// dispatch cycle, stored only as the per-process "last known" snapshot.
#[derive(Clone, Copy, Debug)]
pub struct TouchEvent {
    pub id: u8,
    pub status: TouchStatus,
    pub x: u16,
    pub y: u16,
    pub size: Option<u8>,
    pub pressure: Option<u8>,
}

/// A discrete gesture reported by the controller.
#[derive(Clone, Copy, Debug, PartialEq, Eq, Structural)]
pub enum GestureEvent {
    SwipeUp,
    SwipeDown,
    SwipeLeft,
    SwipeRight,
    ZoomIn,
    ZoomOut,
}

/// Wire code of a touch status. Deliberately non-sequential relative to the
/// declaration order: this layout is an ABI surface and must not change.
pub open spec fn status_code(status: TouchStatus) -> int {
    match status {
        TouchStatus::Released => 0,
        TouchStatus::Pressed => 1,
        TouchStatus::Moved => 2,
        TouchStatus::Unstarted => 3,
    }
}

/// Wire code of a touch status.
pub fn touch_status_to_number(status: &TouchStatus) -> (r: usize)
    ensures
        r == status_code(*status),
{
    match status {
        TouchStatus::Released => 0,
        TouchStatus::Pressed => 1,
        TouchStatus::Moved => 2,
        TouchStatus::Unstarted => 3,
    }
}

/// 1-based ordinal of a gesture, identical to declaration order.
pub open spec fn gesture_ordinal(event: GestureEvent) -> int {
    match event {
        GestureEvent::SwipeUp => 1,
        GestureEvent::SwipeDown => 2,
        GestureEvent::SwipeLeft => 3,
        GestureEvent::SwipeRight => 4,
        GestureEvent::ZoomIn => 5,
        GestureEvent::ZoomOut => 6,
    }
}

/// 1-based ordinal of a gesture.
pub fn gesture_number(event: &GestureEvent) -> (r: usize)
    ensures
        r == gesture_ordinal(*event),
{
    match event {
        GestureEvent::SwipeUp => 1,
        GestureEvent::SwipeDown => 2,
        GestureEvent::SwipeLeft => 3,
        GestureEvent::SwipeRight => 4,
        GestureEvent::ZoomIn => 5,
        GestureEvent::ZoomOut => 6,
    }
}

} // verus!
