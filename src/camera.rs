use vstd::prelude::*;

verus! {

/// Largest pitch magnitude, in hundredths of a degree: the pitch stays
/// strictly between the poles so that the camera's up vector never degenerates.
pub const PITCH_LIMIT: i32 = 8999;

/// The pitch that a requested pitch is clamped to.
pub open spec fn clamped_pitch(pitch: int) -> int {
    if pitch > PITCH_LIMIT {
        PITCH_LIMIT as int
    } else if pitch < -PITCH_LIMIT {
        -PITCH_LIMIT
    } else {
        pitch
    }
}

/// Clamps a pitch, in hundredths of a degree, into the open interval
/// between -90 and 90 degrees.
pub fn clamp_pitch(pitch: i32) -> (r: i32)
    ensures
        r == clamped_pitch(pitch as int),
        -9000 < r < 9000,
{
    if pitch > PITCH_LIMIT {
        PITCH_LIMIT
    } else if pitch < -PITCH_LIMIT {
        -PITCH_LIMIT
    } else {
        pitch
    }
}

/// A camera orientation as Euler angles in hundredths of a degree, with the
/// pitch kept off the poles.
#[derive(Clone, Copy, Debug, PartialEq, Eq, Structural)]
pub struct Orientation {
    pitch: i32,
    yaw: i32,
    roll: i32,
}

impl Orientation {
    pub closed spec fn pitch_spec(&self) -> i32 {
        self.pitch
    }

    pub closed spec fn yaw_spec(&self) -> i32 {
        self.yaw
    }

    pub closed spec fn roll_spec(&self) -> i32 {
        self.roll
    }

    #[verifier::type_invariant]
    spec fn inv(&self) -> bool {
        -PITCH_LIMIT <= self.pitch <= PITCH_LIMIT
    }

    /// The orientation requested, with its pitch clamped.
    pub fn new(pitch: i32, yaw: i32, roll: i32) -> (r: Orientation)
        ensures
            r.pitch_spec() == clamped_pitch(pitch as int),
            r.yaw_spec() == yaw,
            r.roll_spec() == roll,
    {
        Orientation { pitch: clamp_pitch(pitch), yaw, roll }
    }

    /// Pitch, strictly between -90 and 90 degrees.
    pub fn pitch(&self) -> (r: i32)
        ensures
            r == self.pitch_spec(),
            -9000 < r < 9000,
    {
        proof {
            use_type_invariant(self);
        }
        self.pitch
    }

    pub fn yaw(&self) -> (r: i32)
        ensures
            r == self.yaw_spec(),
    {
        self.yaw
    }

    pub fn roll(&self) -> (r: i32)
        ensures
            r == self.roll_spec(),
    {
        self.roll
    }
}

} // verus!
