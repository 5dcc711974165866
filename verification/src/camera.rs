//! Free-flight camera state, advanced from key events and elapsed time.
//!
//! All quantities are fixed-point integers: rotation-matrix entries carry
//! [`ROT_SCALE`] per unit, positions carry [`POSITION_ONE`] per world unit.
//! The trigonometry that turns mouse motion into a rotation happens outside
//! the library; the camera takes the resulting matrix as a value.

use vstd::prelude::*;

verus! {

/// Fixed-point one of a rotation-matrix entry.
pub const ROT_SCALE: i64 = 1_000_000;

/// Position units per world unit. One microsecond of travel at one world
/// unit per second moves the camera `ROT_SCALE` of these units.
pub const POSITION_ONE: i64 = 1_000_000_000_000;

/// Longest time step one update accepts, in microseconds (one day).
pub const DELTA_MAX_US: u64 = 86_400_000_000;

/// Position bound under which one more update cannot overflow.
pub const LOC_LIMIT: i64 = 6_000_000_000_000_000_000;

/// Key identities the camera and the parameter entity react to.
#[derive(Clone, Copy, PartialEq, Eq, Structural, Debug)]
pub enum KeyCode {
    A,
    D,
    S,
    W,
    E,
    Q,
    LShift,
    J,
    L,
    K,
    I,
    O,
    U,
    Other,
}

/// One input event, as the window system reports it: a key transition, or
/// mouse motion already folded into the camera rotation it yields.
pub enum InputEvent {
    /// A key was pressed or released.
    Keyboard { key: KeyCode, pressed: bool },
    /// Mouse motion rotated the camera; carries the new rotation matrix.
    MouseRotation { rotation: RotationMatrix },
}

/// Per-axis movement demand: whether the negative-direction and the
/// positive-direction keys are held.
#[derive(Clone, Copy, PartialEq, Eq, Structural, Debug)]
pub struct MoveState {
    pub neg: bool,
    pub pos: bool,
}

impl Default for MoveState {
    /// Neither direction held.
    fn default() -> (r: MoveState)
        ensures
            !r.neg,
            !r.pos,
    {
        MoveState { neg: false, pos: false }
    }
}

impl MoveState {
    /// The signed axis velocity this state demands, in world units per
    /// second.
    pub open spec fn velocity_spec(self) -> int {
        if self.neg == self.pos {
            0
        } else if self.pos {
            1
        } else {
            -1
        }
    }

    /// Computes [`MoveState::velocity_spec`].
    pub fn into_velocity(&self) -> (v: i64)
        ensures
            v == self.velocity_spec(),
    {
        match (self.neg, self.pos) {
            (true, true) => 0,
            (false, true) => 1,
            (true, false) => -1,
            (false, false) => 0,
        }
    }
}

/// A rotation matrix in fixed-point form, rows times [`ROT_SCALE`].
#[derive(Clone, Copy, Debug)]
pub struct RotationMatrix {
    pub rows: [[i64; 3]; 3],
}

impl RotationMatrix {
    /// Every entry of a rotation matrix has magnitude at most one.
    pub open spec fn wf(self) -> bool {
        forall|i: int, j: int|
            0 <= i < 3 && 0 <= j < 3 ==> -ROT_SCALE <= #[trigger] self.rows@[i]@[j] <= ROT_SCALE
    }

    /// The identity rotation.
    pub fn identity() -> (r: RotationMatrix)
        ensures
            r.wf(),
            r.rows@[0]@ == seq![ROT_SCALE, 0i64, 0i64],
            r.rows@[1]@ == seq![0i64, ROT_SCALE, 0i64],
            r.rows@[2]@ == seq![0i64, 0i64, ROT_SCALE],
    {
        RotationMatrix {
            rows: [[ROT_SCALE, 0, 0], [0, ROT_SCALE, 0], [0, 0, ROT_SCALE]],
        }
    }

    /// One coordinate of this matrix applied to a velocity vector; the
    /// result carries the matrix's fixed-point scale.
    pub open spec fn apply_row_spec(self, i: int, v: Seq<int>) -> int {
        self.rows@[i]@[0] * v[0] + self.rows@[i]@[1] * v[1] + self.rows@[i]@[2] * v[2]
    }

    /// Rotates a small velocity vector; the result keeps the fixed-point
    /// scale of the matrix entries.
    pub fn rotate_velocity(&self, v: [i64; 3]) -> (r: [i64; 3])
        requires
            self.wf(),
            forall|i: int| 0 <= i < 3 ==> -10 <= #[trigger] v@[i] <= 10,
        ensures
            forall|i: int| 0 <= i < 3 ==> #[trigger] r@[i] == self.apply_row_spec(
                i,
                seq![v@[0] as int, v@[1] as int, v@[2] as int],
            ),
            forall|i: int| 0 <= i < 3 ==> -30_000_000 <= #[trigger] r@[i] <= 30_000_000,
    {
        proof {
            lemma_mul_bound(self.rows@[0]@[0] as int, v@[0] as int, ROT_SCALE as int, 10);
            lemma_mul_bound(self.rows@[0]@[1] as int, v@[1] as int, ROT_SCALE as int, 10);
            lemma_mul_bound(self.rows@[0]@[2] as int, v@[2] as int, ROT_SCALE as int, 10);
            lemma_mul_bound(self.rows@[1]@[0] as int, v@[0] as int, ROT_SCALE as int, 10);
            lemma_mul_bound(self.rows@[1]@[1] as int, v@[1] as int, ROT_SCALE as int, 10);
            lemma_mul_bound(self.rows@[1]@[2] as int, v@[2] as int, ROT_SCALE as int, 10);
            lemma_mul_bound(self.rows@[2]@[0] as int, v@[0] as int, ROT_SCALE as int, 10);
            lemma_mul_bound(self.rows@[2]@[1] as int, v@[1] as int, ROT_SCALE as int, 10);
            lemma_mul_bound(self.rows@[2]@[2] as int, v@[2] as int, ROT_SCALE as int, 10);
        }
        let r0 = self.rows[0][0] * v[0] + self.rows[0][1] * v[1] + self.rows[0][2] * v[2];
        let r1 = self.rows[1][0] * v[0] + self.rows[1][1] * v[1] + self.rows[1][2] * v[2];
        let r2 = self.rows[2][0] * v[0] + self.rows[2][1] * v[1] + self.rows[2][2] * v[2];
        [r0, r1, r2]
    }
}

/// Bounds the magnitude of a product by the product of the bounds.
pub proof fn lemma_mul_bound(x: int, y: int, bx: int, by: int)
    requires
        -bx <= x <= bx,
        -by <= y <= by,
        0 <= bx,
        0 <= by,
    ensures
        -(bx * by) <= x * y <= bx * by,
{
    assert(-(bx * by) <= x * y <= bx * by) by (nonlinear_arith)
        requires
            -bx <= x <= bx,
            -by <= y <= by,
            0 <= bx,
            0 <= by,
    {
    }
}

/// The free-flight camera: position, rotation and the movement keys
/// currently held.
pub struct Camera {
    /// Position in [`POSITION_ONE`] units per world unit.
    pub location: [i64; 3],
    /// Current rotation.
    pub rotation: RotationMatrix,
    /// Whether the speed modifier is held (ten times the velocity).
    pub speedup: bool,
    /// Movement demand per axis: sideways, vertical, forward.
    pub move_states: [MoveState; 3],
}

impl Camera {
    /// The rotation is well formed and the position leaves room for one
    /// more update.
    pub open spec fn wf(self) -> bool {
        &&& self.rotation.wf()
        &&& forall|i: int| 0 <= i < 3 ==> -LOC_LIMIT <= #[trigger] self.location@[i] <= LOC_LIMIT
    }

    /// The velocity vector the held keys demand, in world units per
    /// second.
    pub open spec fn velocity_spec(self) -> Seq<int> {
        let m: int = if self.speedup {
            10
        } else {
            1
        };
        seq![
            self.move_states@[0].velocity_spec() * m,
            self.move_states@[1].velocity_spec() * m,
            self.move_states@[2].velocity_spec() * m,
        ]
    }
}

/// Which movement axis a key drives: sideways, vertical or forward;
/// negative for a key that drives none.
pub open spec fn axis_of(key: KeyCode) -> int {
    match key {
        KeyCode::A => 0,
        KeyCode::D => 0,
        KeyCode::E => 1,
        KeyCode::Q => 1,
        KeyCode::S => 2,
        KeyCode::W => 2,
        _ => -1,
    }
}

/// Whether the key drives its axis in the positive direction.
pub open spec fn key_is_positive(key: KeyCode) -> bool {
    key == KeyCode::D || key == KeyCode::Q || key == KeyCode::W
}

/// The movement demands after one key transition: the key's direction on
/// its axis follows the key, everything else is untouched.
pub open spec fn states_after_key(ms: Seq<MoveState>, key: KeyCode, pressed: bool) -> Seq<
    MoveState,
> {
    let a = axis_of(key);
    if a < 0 {
        ms
    } else if key_is_positive(key) {
        ms.update(a, MoveState { neg: ms[a].neg, pos: pressed })
    } else {
        ms.update(a, MoveState { neg: pressed, pos: ms[a].pos })
    }
}

impl Camera {
    /// Reacts to one input event: movement keys set the per-axis demands,
    /// the speed modifier sets the multiplier, mouse motion replaces the
    /// rotation. The position only ever changes through [`Camera::update`].
    pub fn on_event(&mut self, event: &InputEvent)
        requires
            event matches InputEvent::MouseRotation { rotation } ==> rotation.wf(),
        ensures
            final(self).location@ == old(self).location@,
            (event matches InputEvent::Keyboard { key, pressed } ==> {
                &&& final(self).rotation == old(self).rotation
                &&& final(self).speedup == (if *key is LShift {
                    *pressed
                } else {
                    old(self).speedup
                })
                &&& final(self).move_states@ == states_after_key(
                    old(self).move_states@,
                    *key,
                    *pressed,
                )
            }),
            (event matches InputEvent::MouseRotation { rotation } ==> {
                &&& final(self).rotation == *rotation
                &&& final(self).speedup == old(self).speedup
                &&& final(self).move_states@ == old(self).move_states@
            }),
            old(self).wf() ==> final(self).wf(),
    {
        match event {
            InputEvent::Keyboard { key, pressed } => {
                let p = *pressed;
                let s = self.move_states;
                match key {
                    KeyCode::A => {
                        self.move_states = [MoveState { neg: p, pos: s[0].pos }, s[1], s[2]];
                        proof {
                            assert(self.move_states@ =~= states_after_key(s@, KeyCode::A, p));
                        }
                    },
                    KeyCode::D => {
                        self.move_states = [MoveState { neg: s[0].neg, pos: p }, s[1], s[2]];
                        proof {
                            assert(self.move_states@ =~= states_after_key(s@, KeyCode::D, p));
                        }
                    },
                    KeyCode::E => {
                        self.move_states = [s[0], MoveState { neg: p, pos: s[1].pos }, s[2]];
                        proof {
                            assert(self.move_states@ =~= states_after_key(s@, KeyCode::E, p));
                        }
                    },
                    KeyCode::Q => {
                        self.move_states = [s[0], MoveState { neg: s[1].neg, pos: p }, s[2]];
                        proof {
                            assert(self.move_states@ =~= states_after_key(s@, KeyCode::Q, p));
                        }
                    },
                    KeyCode::S => {
                        self.move_states = [s[0], s[1], MoveState { neg: p, pos: s[2].pos }];
                        proof {
                            assert(self.move_states@ =~= states_after_key(s@, KeyCode::S, p));
                        }
                    },
                    KeyCode::W => {
                        self.move_states = [s[0], s[1], MoveState { neg: s[2].neg, pos: p }];
                        proof {
                            assert(self.move_states@ =~= states_after_key(s@, KeyCode::W, p));
                        }
                    },
                    KeyCode::LShift => {
                        self.speedup = p;
                    },
                    _ => {},
                }
            },
            InputEvent::MouseRotation { rotation } => {
                self.rotation = *rotation;
            },
        }
    }

    /// Advances the position by the elapsed time: the velocity the held
    /// keys demand, sped up tenfold under the modifier, rotated into world
    /// space and integrated over the time step.
    pub fn update(&mut self, delta_us: u64)
        requires
            old(self).wf(),
            delta_us <= DELTA_MAX_US,
        ensures
            forall|i: int|
                0 <= i < 3 ==> #[trigger] final(self).location@[i] == old(self).location@[i]
                    + old(self).rotation.apply_row_spec(i, old(self).velocity_spec()) * delta_us,
            final(self).rotation == old(self).rotation,
            final(self).speedup == old(self).speedup,
            final(self).move_states@ == old(self).move_states@,
    {
        let v0 = self.move_states[0].into_velocity();
        let v1 = self.move_states[1].into_velocity();
        let v2 = self.move_states[2].into_velocity();
        let w: [i64; 3] = if self.speedup {
            [v0 * 10, v1 * 10, v2 * 10]
        } else {
            [v0, v1, v2]
        };
        proof {
            assert(seq![w@[0] as int, w@[1] as int, w@[2] as int] =~= self.velocity_spec());
        }
        let r = self.rotation.rotate_velocity(w);
        let d = delta_us as i64;
        proof {
            lemma_mul_bound(r@[0] as int, d as int, 30_000_000, DELTA_MAX_US as int);
            lemma_mul_bound(r@[1] as int, d as int, 30_000_000, DELTA_MAX_US as int);
            lemma_mul_bound(r@[2] as int, d as int, 30_000_000, DELTA_MAX_US as int);
        }
        let s0 = r[0] * d;
        let s1 = r[1] * d;
        let s2 = r[2] * d;
        self.location = [
            self.location[0] + s0,
            self.location[1] + s1,
            self.location[2] + s2,
        ];
    }
}

impl Default for Camera {
    /// Three world units behind the origin, identity rotation, no keys
    /// held.
    fn default() -> (c: Camera)
        ensures
            c.wf(),
            c.location@ == seq![0i64, 0i64, (-3 * POSITION_ONE) as i64],
            c.rotation.rows@[0]@ == seq![ROT_SCALE, 0i64, 0i64],
            c.rotation.rows@[1]@ == seq![0i64, ROT_SCALE, 0i64],
            c.rotation.rows@[2]@ == seq![0i64, 0i64, ROT_SCALE],
            !c.speedup,
            c.move_states@ == seq![
                (MoveState { neg: false, pos: false }),
                (MoveState { neg: false, pos: false }),
                (MoveState { neg: false, pos: false }),
            ],
    {
        Camera {
            location: [0, 0, -3 * POSITION_ONE],
            rotation: RotationMatrix::identity(),
            speedup: false,
            move_states: [MoveState::default(), MoveState::default(), MoveState::default()],
        }
    }
}

} // verus!
