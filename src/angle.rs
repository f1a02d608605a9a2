use vstd::prelude::*;

verus! {

/// A rotation, in whole degrees.
#[derive(Clone, Copy, Debug, PartialEq, Eq, Structural)]
pub struct Angle {
    degrees: i64,
}

impl View for Angle {
    type V = int;

    closed spec fn view(&self) -> int {
        self.degrees as int
    }
}

impl Angle {
    /// The angle of `degrees` degrees.
    pub fn from_degrees(degrees: i64) -> (r: Angle)
        ensures
            r@ == degrees,
    {
        Angle { degrees }
    }

    /// The angle in degrees.
    pub fn degrees(&self) -> (r: i64)
        ensures
            r == self@,
    {
        self.degrees
    }
}

/// The screen angles of the three channels, in channel order: each
/// channel's grid is turned by its own angle so that the dot patterns of the
/// channels do not line up.
#[derive(Clone, Copy, Debug, PartialEq, Eq, Structural)]
pub struct ScreenAngles {
    first: Angle,
    second: Angle,
    third: Angle,
}

/// The step between the screen angles of consecutive channels, in degrees.
pub const SCREEN_STEP_DEGREES: i32 = 33;

impl ScreenAngles {
    /// The angle of channel `channel` (0, 1 or 2).
    pub closed spec fn angle_spec(&self, channel: int) -> int {
        if channel == 0 {
            self.first@
        } else if channel == 1 {
            self.second@
        } else {
            self.third@
        }
    }

    /// The three given angles, in channel order.
    pub fn new(first: Angle, second: Angle, third: Angle) -> (r: ScreenAngles)
        ensures
            r.angle_spec(0) == first@,
            r.angle_spec(1) == second@,
            r.angle_spec(2) == third@,
    {
        ScreenAngles { first, second, third }
    }

    /// Channel `k` turned by `k * step` degrees.
    pub fn stepped(step: i32) -> (r: ScreenAngles)
        ensures
            forall|k: int| 0 <= k < 3 ==> #[trigger] r.angle_spec(k) == k * step,
    {
        let s = step as i64;
        ScreenAngles {
            first: Angle::from_degrees(0),
            second: Angle::from_degrees(s),
            third: Angle::from_degrees(2 * s),
        }
    }

    /// Channel `k` turned by `33 * k` degrees.
    pub fn standard() -> (r: ScreenAngles)
        ensures
            forall|k: int| 0 <= k < 3 ==> #[trigger] r.angle_spec(k) == 33 * k,
    {
        ScreenAngles::stepped(SCREEN_STEP_DEGREES)
    }

    /// The angle of channel `channel`.
    pub fn angle(&self, channel: usize) -> (r: Angle)
        requires
            channel < 3,
        ensures
            r@ == self.angle_spec(channel as int),
    {
        if channel == 0 {
            self.first
        } else if channel == 1 {
            self.second
        } else {
            self.third
        }
    }
}

} // verus!
