//! Integration of held keys into rotation angles over elapsed time.
//!
//! Angles are carried in whole nanoradians. The rotation rate is a whole
//! number of radians per second, so one tick's contribution per held key is
//! exactly the rate times the frame time in nanoseconds — integer
//! arithmetic, with no rounding anywhere.

use vstd::prelude::*;
use crate::input::InputState;

verus! {

/// The rotation rate while a key is held, in radians per second. A tunable,
/// not a correctness constraint.
pub const ROTATION_RATE: u64 = 5;

/// The two accumulated rotation angles, in nanoradians. Unbounded in
/// principle; the representation's limit is treated as never reached.
#[derive(Clone, Copy, PartialEq, Eq, Structural, Debug)]
pub struct RotationAngles {
    pub horizontal_nanorad: i64,
    pub vertical_nanorad: i64,
}

/// One held key's contribution for a tick of `frame_time_ns`, in
/// nanoradians: rate in radians per second times elapsed nanoseconds.
pub open spec fn spec_delta(frame_time_ns: u64) -> int {
    ROTATION_RATE * frame_time_ns
}

/// The horizontal angle after one tick: left adds a contribution, right
/// subtracts one, independently and additively.
pub open spec fn spec_horizontal(h: int, input: InputState, frame_time_ns: u64) -> int {
    h + (if input.left {
        spec_delta(frame_time_ns)
    } else {
        0
    }) - (if input.right {
        spec_delta(frame_time_ns)
    } else {
        0
    })
}

/// The vertical angle after one tick: up adds a contribution, down subtracts
/// one, independently and additively.
pub open spec fn spec_vertical(v: int, input: InputState, frame_time_ns: u64) -> int {
    v + (if input.up {
        spec_delta(frame_time_ns)
    } else {
        0
    }) - (if input.down {
        spec_delta(frame_time_ns)
    } else {
        0
    })
}

impl RotationAngles {
    /// Both angles zero: the pose at startup.
    pub fn new() -> (a: RotationAngles)
        ensures
            a.horizontal_nanorad == 0,
            a.vertical_nanorad == 0,
    {
        RotationAngles { horizontal_nanorad: 0, vertical_nanorad: 0 }
    }

    /// One tick of integration: each held directional key moves its axis by
    /// the rate times the frame time. Effects are additive and independent
    /// per axis; nothing is clamped. The precondition only keeps the exact
    /// results within the representation.
    pub fn update(&mut self, input: &InputState, frame_time_ns: u64)
        requires
            i64::MIN <= spec_horizontal(old(self).horizontal_nanorad as int, *input, frame_time_ns)
                <= i64::MAX,
            i64::MIN <= spec_vertical(old(self).vertical_nanorad as int, *input, frame_time_ns)
                <= i64::MAX,
        ensures
            final(self).horizontal_nanorad == spec_horizontal(
                old(self).horizontal_nanorad as int,
                *input,
                frame_time_ns,
            ),
            final(self).vertical_nanorad == spec_vertical(
                old(self).vertical_nanorad as int,
                *input,
                frame_time_ns,
            ),
    {
        let delta: i128 = (ROTATION_RATE as i128) * (frame_time_ns as i128);
        let mut h: i128 = self.horizontal_nanorad as i128;
        let mut v: i128 = self.vertical_nanorad as i128;
        if input.left {
            h = h + delta;
        }
        if input.right {
            h = h - delta;
        }
        if input.up {
            v = v + delta;
        }
        if input.down {
            v = v - delta;
        }
        self.horizontal_nanorad = h as i64;
        self.vertical_nanorad = v as i64;
    }
}

/// With no directional key held, a tick leaves both angles exactly unchanged,
/// whatever the frame time.
pub proof fn lemma_no_input_identity(h: int, v: int, input: InputState, frame_time_ns: u64)
    requires
        !input.left,
        !input.right,
        !input.up,
        !input.down,
    ensures
        spec_horizontal(h, input, frame_time_ns) == h,
        spec_vertical(v, input, frame_time_ns) == v,
{
}

/// Holding left and right together cancels exactly: the horizontal angle
/// after the tick equals the angle with neither key held, for any frame
/// time. Likewise for up and down on the vertical axis.
pub proof fn lemma_opposite_keys_cancel(h: int, v: int, input: InputState, frame_time_ns: u64)
    requires
        input.left == input.right,
        input.up == input.down,
    ensures
        spec_horizontal(h, input, frame_time_ns) == h,
        spec_vertical(v, input, frame_time_ns) == v,
{
}

} // verus!
