//! Screen rotation and the coordinate transform.
//!
//! A raw controller coordinate is mapped into display space by composing the
//! screen's intrinsic rotation with a configured offset rotation (addition in
//! the mod-4 rotation group) and then rotating the point within the screen's
//! pixel rectangle.

use vstd::prelude::*;

verus! {

/// Orientation of the display, in quarter turns clockwise.
#[derive(Clone, Copy, Debug, PartialEq, Eq, Structural)]
pub enum ScreenRotation {
    Normal,
    Rotated90,
    Rotated180,
    Rotated270,
}

/// The display under the touch panel: its resolution in controller-native
/// orientation and its intrinsic rotation.
#[derive(Clone, Copy, Debug, PartialEq, Eq, Structural)]
pub struct Screen {
    pub width: u16,
    pub height: u16,
    pub rotation: ScreenRotation,
}

/// Number of quarter turns of a rotation.
pub open spec fn rotation_index(r: ScreenRotation) -> int {
    match r {
        ScreenRotation::Normal => 0,
        ScreenRotation::Rotated90 => 1,
        ScreenRotation::Rotated180 => 2,
        ScreenRotation::Rotated270 => 3,
    }
}

/// The rotation with the given number of quarter turns, taken mod 4.
pub open spec fn rotation_of_index(i: int) -> ScreenRotation {
    if i % 4 == 0 {
        ScreenRotation::Normal
    } else if i % 4 == 1 {
        ScreenRotation::Rotated90
    } else if i % 4 == 2 {
        ScreenRotation::Rotated180
    } else {
        ScreenRotation::Rotated270
    }
}

/// Group addition of two rotations: quarter turns add mod 4.
pub open spec fn rotation_add(a: ScreenRotation, b: ScreenRotation) -> ScreenRotation {
    rotation_of_index(rotation_index(a) + rotation_index(b))
}

impl ScreenRotation {
    /// Compose this rotation with another (group addition mod 4).
    pub fn compose(self, other: ScreenRotation) -> (r: ScreenRotation)
        ensures
            r == rotation_add(self, other),
    {
        let i = match self {
            ScreenRotation::Normal => 0usize,
            ScreenRotation::Rotated90 => 1,
            ScreenRotation::Rotated180 => 2,
            ScreenRotation::Rotated270 => 3,
        };
        let j = match other {
            ScreenRotation::Normal => 0usize,
            ScreenRotation::Rotated90 => 1,
            ScreenRotation::Rotated180 => 2,
            ScreenRotation::Rotated270 => 3,
        };
        match (i + j) % 4 {
            0 => ScreenRotation::Normal,
            1 => ScreenRotation::Rotated90,
            2 => ScreenRotation::Rotated180,
            _ => ScreenRotation::Rotated270,
        }
    }
}

/// Display-space point for a raw `(x, y)` under `rot` on a `w` by `h` screen.
///
/// For the quarter-turn cases the screen's width and height swap: under
/// `Rotated90` the point maps to `(y, w - x)` (`w` is the swapped height),
/// under `Rotated270` to `(h - y, x)` (`h` is the swapped width).
pub open spec fn transform_point(
    rot: ScreenRotation,
    w: u16,
    h: u16,
    x: u16,
    y: u16,
) -> (int, int) {
    match rot {
        ScreenRotation::Normal => (x as int, y as int),
        ScreenRotation::Rotated90 => (y as int, w - x),
        ScreenRotation::Rotated180 => (w - x, h - y),
        ScreenRotation::Rotated270 => (h - y, x as int),
    }
}

/// A raw point lies inside the screen rectangle, so every rotated image of it
/// fits in `u16` again. With no screen attached every point is acceptable.
pub open spec fn in_bounds(screen: Option<Screen>, x: u16, y: u16) -> bool {
    match screen {
        Option::None => true,
        Option::Some(s) => x <= s.width && y <= s.height,
    }
}

/// Display-space point for a raw `(x, y)`, given the optionally attached
/// screen and the configured rotation offset. No screen means the identity
/// transform.
pub open spec fn transformed_xy(
    screen: Option<Screen>,
    offset: ScreenRotation,
    x: u16,
    y: u16,
) -> (int, int) {
    match screen {
        Option::None => (x as int, y as int),
        Option::Some(s) => transform_point(rotation_add(s.rotation, offset), s.width, s.height, x, y),
    }
}

/// Transform a raw point into display space.
pub fn transform_xy(screen: Option<Screen>, offset: ScreenRotation, x: u16, y: u16) -> (r: (
    u16,
    u16,
))
    requires
        in_bounds(screen, x, y),
    ensures
        r.0 == transformed_xy(screen, offset, x, y).0,
        r.1 == transformed_xy(screen, offset, x, y).1,
{
    match screen {
        Option::None => (x, y),
        Option::Some(s) => {
            let rot = s.rotation.compose(offset);
            match rot {
                ScreenRotation::Normal => (x, y),
                ScreenRotation::Rotated90 => (y, s.width - x),
                ScreenRotation::Rotated180 => (s.width - x, s.height - y),
                ScreenRotation::Rotated270 => (s.height - y, x),
            }
        },
    }
}

/// Two quarter turns compose to a half turn.
pub proof fn lemma_quarter_twice_is_half()
    ensures
        rotation_add(ScreenRotation::Rotated90, ScreenRotation::Rotated90)
            == ScreenRotation::Rotated180,
{
}

/// A half turn is an involution: applying `Rotated180` twice to any in-range
/// point returns the original point.
pub proof fn lemma_half_turn_involution(w: u16, h: u16, x: u16, y: u16)
    requires
        x <= w,
        y <= h,
    ensures
        ({
            let p = transform_point(ScreenRotation::Rotated180, w, h, x, y);
            transform_point(ScreenRotation::Rotated180, w, h, p.0 as u16, p.1 as u16) == (
                x as int,
                y as int,
            )
        }),
{
}

/// With no screen attached the transform is the identity, whatever offset
/// rotation is configured.
pub proof fn lemma_no_screen_identity(offset: ScreenRotation, x: u16, y: u16)
    ensures
        transformed_xy(Option::None, offset, x, y) == (x as int, y as int),
{
}

/// An in-range raw point maps to an in-range display point: both transformed
/// coordinates fit in `u16`.
pub proof fn lemma_transform_in_range(
    screen: Option<Screen>,
    offset: ScreenRotation,
    x: u16,
    y: u16,
)
    requires
        in_bounds(screen, x, y),
    ensures
        0 <= transformed_xy(screen, offset, x, y).0 <= u16::MAX,
        0 <= transformed_xy(screen, offset, x, y).1 <= u16::MAX,
{
}

} // verus!
