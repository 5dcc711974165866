//! The user-steered parameter vector fed to the distance function.
//!
//! Releasing one of the steering keys kicks the vector's velocity along
//! one axis; every update integrates the velocity into the vector, damps
//! the velocity against elapsed time and stops it below a threshold. All
//! quantities are fixed-point integers: velocities carry [`OFFSET_ONE`]
//! per world unit and second, the vector itself carries
//! [`crate::camera::POSITION_ONE`] per world unit.

use crate::camera::{InputEvent, KeyCode, DELTA_MAX_US, LOC_LIMIT};
use vstd::arithmetic::div_mod::{
    lemma_div_by_multiple, lemma_div_is_ordered_by_denominator, lemma_div_pos_is_pos,
};
use vstd::prelude::*;

verus! {

/// Fixed-point one of a velocity component, per world unit and second.
pub const OFFSET_ONE: i64 = 1_000_000;

/// Velocity a key release kicks its axis to: one world unit per second.
pub const BOUNCE: i64 = 1_000_000;

/// Velocities below a tenth of a world unit per second stop entirely.
pub const STOP: i64 = 100_000;

/// The steerable parameter vector and its decaying velocity.
pub struct OffsetEntity {
    /// The vector handed to the distance function, in
    /// [`crate::camera::POSITION_ONE`] units per world unit.
    pub offset_parameter: [i64; 3],
    /// Current velocity, in [`OFFSET_ONE`] units per world unit and
    /// second.
    pub offset_velocity: [i64; 3],
}

/// The velocity vector after one key transition: releasing a steering key
/// kicks its axis to the bounce velocity, everything else changes
/// nothing.
pub open spec fn velocity_after_key(v: Seq<i64>, key: KeyCode, pressed: bool) -> Seq<i64> {
    if pressed {
        v
    } else {
        match key {
            KeyCode::J => v.update(0, (-BOUNCE) as i64),
            KeyCode::L => v.update(0, BOUNCE),
            KeyCode::O => v.update(1, (-BOUNCE) as i64),
            KeyCode::U => v.update(1, BOUNCE),
            KeyCode::K => v.update(2, (-BOUNCE) as i64),
            KeyCode::I => v.update(2, BOUNCE),
            _ => v,
        }
    }
}

/// One velocity component damped over a time step: divided by one plus
/// half the elapsed seconds, at fixed-point scale.
pub open spec fn damped(v: int, delta_us: int) -> int {
    let denom = OFFSET_ONE + delta_us / 2;
    if v >= 0 {
        (v * OFFSET_ONE) / denom
    } else {
        -((-v) * OFFSET_ONE / denom)
    }
}

/// A velocity component with the stop threshold applied.
pub open spec fn stopped(v: int) -> int {
    if -STOP < v < STOP {
        0
    } else {
        v
    }
}

impl OffsetEntity {
    /// The velocity never exceeds the bounce velocity, and the vector
    /// leaves room for one more update.
    pub open spec fn wf(self) -> bool {
        &&& forall|i: int|
            0 <= i < 3 ==> -BOUNCE <= #[trigger] self.offset_velocity@[i] <= BOUNCE
        &&& forall|i: int|
            0 <= i < 3 ==> -LOC_LIMIT <= #[trigger] self.offset_parameter@[i] <= LOC_LIMIT
    }

    /// A resting vector at the origin.
    pub fn new() -> (e: OffsetEntity)
        ensures
            e.wf(),
            e.offset_parameter@ == seq![0i64, 0i64, 0i64],
            e.offset_velocity@ == seq![0i64, 0i64, 0i64],
    {
        OffsetEntity { offset_parameter: [0, 0, 0], offset_velocity: [0, 0, 0] }
    }

    /// Reacts to one input event: a released steering key kicks the
    /// velocity along its axis; nothing else changes anything.
    pub fn on_event(&mut self, event: &InputEvent)
        ensures
            final(self).offset_parameter@ == old(self).offset_parameter@,
            (event matches InputEvent::Keyboard { key, pressed }
                ==> final(self).offset_velocity@ == velocity_after_key(
                old(self).offset_velocity@,
                *key,
                *pressed,
            )),
            (event matches InputEvent::MouseRotation { .. }
                ==> final(self).offset_velocity@ == old(self).offset_velocity@),
            old(self).wf() ==> final(self).wf(),
    {
        match event {
            InputEvent::Keyboard { key, pressed } => {
                if !*pressed {
                    let v = self.offset_velocity;
                    match key {
                        KeyCode::J => {
                            self.offset_velocity = [-BOUNCE, v[1], v[2]];
                            proof {
                                assert(self.offset_velocity@
                                    =~= velocity_after_key(v@, KeyCode::J, false));
                            }
                        },
                        KeyCode::L => {
                            self.offset_velocity = [BOUNCE, v[1], v[2]];
                            proof {
                                assert(self.offset_velocity@
                                    =~= velocity_after_key(v@, KeyCode::L, false));
                            }
                        },
                        KeyCode::O => {
                            self.offset_velocity = [v[0], -BOUNCE, v[2]];
                            proof {
                                assert(self.offset_velocity@
                                    =~= velocity_after_key(v@, KeyCode::O, false));
                            }
                        },
                        KeyCode::U => {
                            self.offset_velocity = [v[0], BOUNCE, v[2]];
                            proof {
                                assert(self.offset_velocity@
                                    =~= velocity_after_key(v@, KeyCode::U, false));
                            }
                        },
                        KeyCode::K => {
                            self.offset_velocity = [v[0], v[1], -BOUNCE];
                            proof {
                                assert(self.offset_velocity@
                                    =~= velocity_after_key(v@, KeyCode::K, false));
                            }
                        },
                        KeyCode::I => {
                            self.offset_velocity = [v[0], v[1], BOUNCE];
                            proof {
                                assert(self.offset_velocity@
                                    =~= velocity_after_key(v@, KeyCode::I, false));
                            }
                        },
                        _ => {},
                    }
                }
            },
            InputEvent::MouseRotation { .. } => {},
        }
    }

    /// Advances the vector by the elapsed time, then damps the velocity
    /// and stops it below the threshold.
    pub fn update(&mut self, delta_us: u64)
        requires
            old(self).wf(),
            delta_us <= DELTA_MAX_US,
        ensures
            forall|i: int|
                0 <= i < 3 ==> #[trigger] final(self).offset_parameter@[i]
                    == old(self).offset_parameter@[i]
                    + old(self).offset_velocity@[i] * delta_us,
            forall|i: int|
                0 <= i < 3 ==> #[trigger] final(self).offset_velocity@[i] == stopped(
                    damped(old(self).offset_velocity@[i] as int, delta_us as int),
                ),
            forall|i: int|
                0 <= i < 3 ==> -BOUNCE <= #[trigger] final(self).offset_velocity@[i] <= BOUNCE,
    {
        let d = delta_us as i64;
        proof {
            crate::camera::lemma_mul_bound(
                self.offset_velocity@[0] as int,
                d as int,
                BOUNCE as int,
                DELTA_MAX_US as int,
            );
            crate::camera::lemma_mul_bound(
                self.offset_velocity@[1] as int,
                d as int,
                BOUNCE as int,
                DELTA_MAX_US as int,
            );
            crate::camera::lemma_mul_bound(
                self.offset_velocity@[2] as int,
                d as int,
                BOUNCE as int,
                DELTA_MAX_US as int,
            );
        }
        self.offset_parameter = [
            self.offset_parameter[0] + self.offset_velocity[0] * d,
            self.offset_parameter[1] + self.offset_velocity[1] * d,
            self.offset_parameter[2] + self.offset_velocity[2] * d,
        ];
        let denom: u64 = OFFSET_ONE as u64 + delta_us / 2;
        self.offset_velocity = [
            damp_and_stop(self.offset_velocity[0], delta_us, denom),
            damp_and_stop(self.offset_velocity[1], delta_us, denom),
            damp_and_stop(self.offset_velocity[2], delta_us, denom),
        ];
    }
}

/// Damps one velocity component over the time step and applies the stop
/// threshold. The damping can only shrink the magnitude.
fn damp_and_stop(v: i64, delta_us: u64, denom: u64) -> (r: i64)
    requires
        -BOUNCE <= v <= BOUNCE,
        denom == OFFSET_ONE + delta_us / 2,
    ensures
        r == stopped(damped(v as int, delta_us as int)),
        -BOUNCE <= r <= BOUNCE,
{
    let magnitude: u64 = if v >= 0 {
        v as u64
    } else {
        (-v) as u64
    };
    let scaled: u64 = magnitude * (OFFSET_ONE as u64);
    let shrunk: u64 = scaled / denom;
    proof {
        lemma_div_pos_is_pos(scaled as int, denom as int);
        lemma_div_is_ordered_by_denominator(scaled as int, OFFSET_ONE as int, denom as int);
        lemma_div_by_multiple(magnitude as int, OFFSET_ONE as int);
        assert(magnitude as int * OFFSET_ONE as int == scaled as int);
        assert(shrunk <= magnitude);
    }
    let dv: i64 = if v >= 0 {
        shrunk as i64
    } else {
        -(shrunk as i64)
    };
    if -STOP < dv && dv < STOP {
        0
    } else {
        dv
    }
}

} // verus!
