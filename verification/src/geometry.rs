//! Fixed-point geometry of the sphere-tracing renderer.
//!
//! Everything here works on integers: coordinates carry [`GEO_ONE`] units
//! per world unit, rotation-matrix entries carry
//! [`crate::camera::ROT_SCALE`]. The module provides the distance function
//! the baseline ships, the ray setup the compute entry point performs per
//! pixel, the sphere-tracing march, and an analytic ray–sphere
//! intersection test to hold the march against.

use crate::camera::{lemma_mul_bound, RotationMatrix, ROT_SCALE};
use vstd::prelude::*;

verus! {

/// Fixed-point one of a geometric coordinate: a thousandth of a world
/// unit.
pub const GEO_ONE: i64 = 1000;

/// Largest coordinate magnitude the distance function accepts.
pub const GEO_RANGE: i64 = 8_000_000;

/// Largest ray-direction component magnitude.
pub const DIR_RANGE: i64 = 40_000;

/// Largest ray parameter (one hundred world units).
pub const T_RANGE: i64 = 100_000;

/// Largest camera/sphere coordinate magnitude a traced scene uses.
pub const SCENE_RANGE: i64 = 100_000;

/// Every component of the vector has magnitude at most `bound`.
pub open spec fn in_range3(v: [i64; 3], bound: int) -> bool {
    forall|i: int| 0 <= i < 3 ==> -bound <= #[trigger] v@[i] <= bound
}

/// Truncating division of a product by [`GEO_ONE`] (rounding toward
/// zero), the way every fixed-point multiplication here scales back.
pub open spec fn mul_div_trunc(a: int, b: int) -> int {
    if a * b >= 0 {
        (a * b) / (GEO_ONE as int)
    } else {
        -((-(a * b)) / (GEO_ONE as int))
    }
}

/// Truncating division by the rotation scale.
pub open spec fn div_rot_trunc(p: int) -> int {
    if p >= 0 {
        p / (ROT_SCALE as int)
    } else {
        -((-p) / (ROT_SCALE as int))
    }
}

/// The floor of the square root of a natural number.
pub open spec fn sqrt_floor(n: nat) -> nat
    decreases n,
{
    if n == 0 {
        0
    } else {
        let r = sqrt_floor((n - 1) as nat);
        if (r + 1) * (r + 1) <= n {
            r + 1
        } else {
            r
        }
    }
}

/// [`sqrt_floor`] brackets its argument between consecutive squares.
pub proof fn lemma_sqrt_floor_bounds(n: nat)
    ensures
        sqrt_floor(n) * sqrt_floor(n) <= n,
        n < (sqrt_floor(n) + 1) * (sqrt_floor(n) + 1),
    decreases n,
{
    if n == 0 {
        assert(sqrt_floor(0) == 0);
        assert((sqrt_floor(n) + 1) * (sqrt_floor(n) + 1) == 1) by (nonlinear_arith)
            requires
                sqrt_floor(n) == 0,
        {
        }
    } else {
        lemma_sqrt_floor_bounds((n - 1) as nat);
        let r = sqrt_floor((n - 1) as nat);
        assert(sqrt_floor(n) == if (r + 1) * (r + 1) <= n {
            r + 1
        } else {
            r
        });
        if (r + 1) * (r + 1) <= n {
            assert(sqrt_floor(n) == r + 1);
            assert(sqrt_floor(n) * sqrt_floor(n) <= n);
            assert(n - 1 < (r + 1) * (r + 1));
            assert(n <= (r + 1) * (r + 1));
            assert((r + 1 + 1) * (r + 1 + 1) > (r + 1) * (r + 1)) by (nonlinear_arith)
                requires
                    r >= 0,
            {
            }
            assert(n < (sqrt_floor(n) + 1) * (sqrt_floor(n) + 1));
        } else {
            assert(sqrt_floor(n) == r);
            assert(r * r <= n - 1);
            assert(sqrt_floor(n) * sqrt_floor(n) <= n);
            assert(n < (r + 1) * (r + 1));
            assert(n < (sqrt_floor(n) + 1) * (sqrt_floor(n) + 1));
        }
    }
}

/// Any value bracketed between consecutive squares is the floor square
/// root.
pub proof fn lemma_sqrt_floor_unique(n: nat, s: nat)
    requires
        s * s <= n,
        n < (s + 1) * (s + 1),
    ensures
        s == sqrt_floor(n),
{
    lemma_sqrt_floor_bounds(n);
    let r = sqrt_floor(n);
    if r < s {
        assert(s * s <= n < (r + 1) * (r + 1));
        assert((r + 1) * (r + 1) <= s * s) by (nonlinear_arith)
            requires
                0 <= r,
                0 <= s,
                r + 1 <= s,
        {
        }
    }
    if s < r {
        assert(r * r <= n < (s + 1) * (s + 1));
        assert((s + 1) * (s + 1) <= r * r) by (nonlinear_arith)
            requires
                0 <= r,
                0 <= s,
                s + 1 <= r,
        {
        }
    }
}

/// The floor square root, by binary search.
pub fn isqrt(n: u64) -> (r: u64)
    ensures
        r == sqrt_floor(n as nat),
        r * r <= n,
{
    let mut lo: u64 = 0;
    let mut hi: u64 = 4_294_967_296;
    proof {
        assert((n as int) < 4_294_967_296int * 4_294_967_296int);
    }
    while hi - lo > 1
        invariant
            lo < hi <= 4_294_967_296,
            (lo as int) * (lo as int) <= n as int,
            (n as int) < (hi as int) * (hi as int),
        decreases hi - lo,
    {
        let mid = lo + (hi - lo) / 2;
        proof {
            lemma_mul_bound(mid as int, mid as int, 0x1_0000_0000, 0x1_0000_0000);
        }
        let sq: u128 = (mid as u128) * (mid as u128);
        if sq <= n as u128 {
            lo = mid;
        } else {
            hi = mid;
        }
    }
    proof {
        assert(hi == lo + 1);
        lemma_sqrt_floor_unique(n as nat, lo as nat);
        lemma_sqrt_floor_bounds(n as nat);
    }
    lo
}

/// Computes [`mul_div_trunc`] of two bounded fixed-point values.
pub fn mul_div_one(a: i64, b: i64) -> (r: i64)
    requires
        -1_000_000 <= a <= 1_000_000,
        -1_000_000 <= b <= 1_000_000,
    ensures
        r == mul_div_trunc(a as int, b as int),
        -1_000_000_000 <= r <= 1_000_000_000,
{
    proof {
        lemma_mul_bound(a as int, b as int, 1_000_000, 1_000_000);
    }
    let p: i64 = a * b;
    if p >= 0 {
        let q: u64 = (p as u64) / (GEO_ONE as u64);
        proof {
            vstd::arithmetic::div_mod::lemma_div_is_ordered(
                p as int,
                1_000_000_000_000,
                GEO_ONE as int,
            );
        }
        q as i64
    } else {
        let q: u64 = ((-p) as u64) / (GEO_ONE as u64);
        proof {
            vstd::arithmetic::div_mod::lemma_div_is_ordered(
                (-p) as int,
                1_000_000_000_000,
                GEO_ONE as int,
            );
        }
        -(q as i64)
    }
}

/// Computes [`div_rot_trunc`] for bounded products.
pub fn div_rot(p: i64) -> (r: i64)
    requires
        -1_000_000_000_000_000 <= p <= 1_000_000_000_000_000,
    ensures
        r == div_rot_trunc(p as int),
        -1_000_000_000 <= r <= 1_000_000_000,
{
    if p >= 0 {
        let q: u64 = (p as u64) / (ROT_SCALE as u64);
        proof {
            vstd::arithmetic::div_mod::lemma_div_is_ordered(
                p as int,
                1_000_000_000_000_000,
                ROT_SCALE as int,
            );
        }
        q as i64
    } else {
        let q: u64 = ((-p) as u64) / (ROT_SCALE as u64);
        proof {
            vstd::arithmetic::div_mod::lemma_div_is_ordered(
                (-p) as int,
                1_000_000_000_000_000,
                ROT_SCALE as int,
            );
        }
        -(q as i64)
    }
}

/// Magnitude bound of a truncated scaled product: if the operand bounds
/// multiply to at most `q` scale units, the result's magnitude is at most
/// `q`.
pub proof fn lemma_mul_div_trunc_bound(a: int, b: int, ba: int, bb: int, q: int)
    requires
        -ba <= a <= ba,
        -bb <= b <= bb,
        0 <= ba,
        0 <= bb,
        0 <= q,
        ba * bb <= q * (GEO_ONE as int),
    ensures
        -q <= mul_div_trunc(a, b) <= q,
{
    lemma_mul_bound(a, b, ba, bb);
    let p = a * b;
    vstd::arithmetic::div_mod::lemma_div_by_multiple(q, GEO_ONE as int);
    if p >= 0 {
        vstd::arithmetic::div_mod::lemma_div_pos_is_pos(p, GEO_ONE as int);
        vstd::arithmetic::div_mod::lemma_div_is_ordered(p, q * (GEO_ONE as int), GEO_ONE as int);
    } else {
        vstd::arithmetic::div_mod::lemma_div_pos_is_pos(-p, GEO_ONE as int);
        vstd::arithmetic::div_mod::lemma_div_is_ordered(-p, q * (GEO_ONE as int), GEO_ONE as int);
    }
}

/// Magnitude bound of a truncated rotation-scaled value.
pub proof fn lemma_div_rot_bound(p: int, bp: int, q: int)
    requires
        -bp <= p <= bp,
        0 <= q,
        bp <= q * (ROT_SCALE as int),
    ensures
        -q <= div_rot_trunc(p) <= q,
{
    vstd::arithmetic::div_mod::lemma_div_by_multiple(q, ROT_SCALE as int);
    if p >= 0 {
        vstd::arithmetic::div_mod::lemma_div_pos_is_pos(p, ROT_SCALE as int);
        vstd::arithmetic::div_mod::lemma_div_is_ordered(p, q * (ROT_SCALE as int), ROT_SCALE as int);
    } else {
        vstd::arithmetic::div_mod::lemma_div_pos_is_pos(-p, ROT_SCALE as int);
        vstd::arithmetic::div_mod::lemma_div_is_ordered(-p, q * (ROT_SCALE as int), ROT_SCALE as int);
    }
}

/// The three components of a fixed-point vector, as unbounded integers.
pub open spec fn seq3(v: [i64; 3]) -> Seq<int> {
    seq![v@[0] as int, v@[1] as int, v@[2] as int]
}

/// Squared distance between two points.
pub open spec fn dist_sq(p: Seq<int>, o: Seq<int>) -> int {
    let dx = p[0] - o[0];
    let dy = p[1] - o[1];
    let dz = p[2] - o[2];
    dx * dx + dy * dy + dz * dz
}

/// The distance field the baseline ships: signed distance from `p` to the
/// unit sphere centered at `o`, rounded down to the fixed-point grid.
pub open spec fn sdf_spec(p: Seq<int>, o: Seq<int>) -> int {
    sqrt_floor(dist_sq(p, o) as nat) - GEO_ONE
}

/// Computes [`sdf_spec`]: the signed distance from `pos` to the unit
/// sphere centered at `offset`.
pub fn eval_sdf(pos: [i64; 3], offset: [i64; 3]) -> (d: i64)
    requires
        in_range3(pos, GEO_RANGE as int),
        in_range3(offset, GEO_RANGE as int),
    ensures
        d == sdf_spec(seq3(pos), seq3(offset)),
        -GEO_ONE <= d <= 30_000_000,
{
    let dx = pos[0] - offset[0];
    let dy = pos[1] - offset[1];
    let dz = pos[2] - offset[2];
    let ax: u64 = if dx >= 0 {
        dx as u64
    } else {
        (-dx) as u64
    };
    let ay: u64 = if dy >= 0 {
        dy as u64
    } else {
        (-dy) as u64
    };
    let az: u64 = if dz >= 0 {
        dz as u64
    } else {
        (-dz) as u64
    };
    proof {
        lemma_mul_bound(ax as int, ax as int, 16_000_000, 16_000_000);
        lemma_mul_bound(ay as int, ay as int, 16_000_000, 16_000_000);
        lemma_mul_bound(az as int, az as int, 16_000_000, 16_000_000);
        assert(ax as int * ax as int == dx as int * dx as int) by (nonlinear_arith)
            requires
                ax == dx || ax == -(dx as int),
        {
        }
        assert(ay as int * ay as int == dy as int * dy as int) by (nonlinear_arith)
            requires
                ay == dy || ay == -(dy as int),
        {
        }
        assert(az as int * az as int == dz as int * dz as int) by (nonlinear_arith)
            requires
                az == dz || az == -(dz as int),
        {
        }
    }
    let s: u64 = ax * ax + ay * ay + az * az;
    let r = isqrt(s);
    proof {
        assert(r <= 30_000_000) by (nonlinear_arith)
            requires
                r as int * r as int <= s as int,
                s <= 768_000_000_000_000,
                0 <= r,
        {
        }
    }
    r as i64 - GEO_ONE
}

/// The point a ray parameter reaches: the origin plus the direction,
/// scaled by the parameter and truncated to the fixed-point grid.
pub open spec fn at_spec(origin: Seq<int>, direction: Seq<int>, t: int) -> Seq<int> {
    seq![
        origin[0] + mul_div_trunc(direction[0], t),
        origin[1] + mul_div_trunc(direction[1], t),
        origin[2] + mul_div_trunc(direction[2], t),
    ]
}

/// One camera ray through a pixel.
pub struct Ray {
    /// Starting point, fixed-point coordinates.
    pub origin: [i64; 3],
    /// Largest ray parameter that is still traced.
    pub max_t: i64,
    /// Direction, fixed-point; not normalized.
    pub direction: [i64; 3],
}

impl Ray {
    /// Origin, direction and reach stay within the traced scene.
    pub open spec fn wf(self) -> bool {
        &&& in_range3(self.origin, SCENE_RANGE as int)
        &&& in_range3(self.direction, DIR_RANGE as int)
        &&& 0 < self.max_t <= T_RANGE
    }

    /// The point at ray parameter `t`.
    pub fn at(&self, t: i64) -> (p: [i64; 3])
        requires
            self.wf(),
            0 <= t <= T_RANGE,
        ensures
            seq3(p) == at_spec(seq3(self.origin), seq3(self.direction), t as int),
            in_range3(p, GEO_RANGE as int),
    {
        proof {
            lemma_mul_div_trunc_bound(
                self.direction@[0] as int,
                t as int,
                DIR_RANGE as int,
                T_RANGE as int,
                4_000_000,
            );
            lemma_mul_div_trunc_bound(
                self.direction@[1] as int,
                t as int,
                DIR_RANGE as int,
                T_RANGE as int,
                4_000_000,
            );
            lemma_mul_div_trunc_bound(
                self.direction@[2] as int,
                t as int,
                DIR_RANGE as int,
                T_RANGE as int,
                4_000_000,
            );
        }
        let p = [
            self.origin[0] + mul_div_one(self.direction[0], t),
            self.origin[1] + mul_div_one(self.direction[1], t),
            self.origin[2] + mul_div_one(self.direction[2], t),
        ];
        proof {
            assert(seq3(p) =~= at_spec(seq3(self.origin), seq3(self.direction), t as int));
        }
        p
    }
}

/// How the march classified a pixel.
#[derive(Clone, Copy, PartialEq, Eq, Structural, Debug)]
pub enum PixelClass {
    /// The ray reached the surface within its reach.
    Hit,
    /// The ray left the scene: background is drawn.
    Background,
    /// The step budget ran out before either.
    Overrun,
}

/// The sphere-tracing march: starting just in front of the origin, each
/// step advances the ray parameter by the distance-field value there;
/// reaching distance `eps` is a hit, walking past the reach is
/// background, and exhausting the step budget is an overrun.
pub open spec fn march_spec(
    origin: Seq<int>,
    direction: Seq<int>,
    center: Seq<int>,
    max_t: int,
    eps: int,
    t: int,
    fuel: nat,
) -> PixelClass
    decreases fuel,
{
    if t >= max_t {
        PixelClass::Background
    } else if fuel == 0 {
        PixelClass::Overrun
    } else {
        let d = sdf_spec(at_spec(origin, direction, t), center);
        if d <= eps {
            PixelClass::Hit
        } else {
            march_spec(origin, direction, center, max_t, eps, t + d, (fuel - 1) as nat)
        }
    }
}

/// Computes [`march_spec`] from the start of the ray.
pub fn march(ray: &Ray, center: [i64; 3], eps: i64, max_steps: u32) -> (c: PixelClass)
    requires
        ray.wf(),
        in_range3(center, SCENE_RANGE as int),
        0 <= eps <= GEO_ONE,
    ensures
        c == march_spec(
            seq3(ray.origin),
            seq3(ray.direction),
            seq3(center),
            ray.max_t as int,
            eps as int,
            1,
            max_steps as nat,
        ),
{
    let ghost o = seq3(ray.origin);
    let ghost dir = seq3(ray.direction);
    let ghost cen = seq3(center);
    let mut t: i64 = 1;
    let mut fuel: u32 = max_steps;
    while t < ray.max_t && fuel > 0
        invariant
            ray.wf(),
            in_range3(center, SCENE_RANGE as int),
            0 <= eps <= GEO_ONE,
            1 <= t <= T_RANGE + 30_000_000,
            march_spec(o, dir, cen, ray.max_t as int, eps as int, 1, max_steps as nat)
                == march_spec(o, dir, cen, ray.max_t as int, eps as int, t as int, fuel as nat),
            o == seq3(ray.origin),
            dir == seq3(ray.direction),
            cen == seq3(center),
        decreases fuel,
    {
        let p = ray.at(t);
        let d = eval_sdf(p, center);
        if d <= eps {
            return PixelClass::Hit;
        }
        t = t + d;
        fuel = fuel - 1;
    }
    if t >= ray.max_t {
        PixelClass::Background
    } else {
        PixelClass::Overrun
    }
}

/// The per-pixel trace inputs the compute entry point reads from the
/// uniform block, in fixed-point form.
pub struct TraceParams {
    /// Camera position.
    pub camera_pos: [i64; 3],
    /// Camera rotation.
    pub rotation: RotationMatrix,
    /// Tangent of half the vertical field of view, in [`GEO_ONE`] units.
    pub tan_half_fov: i64,
    /// Target resolution in pixels.
    pub resolution: [u32; 2],
    /// Center of the traced unit sphere: the user parameter vector.
    pub offset: [i64; 3],
    /// Largest traced ray parameter.
    pub max_t: i64,
}

impl TraceParams {
    /// The scene stays within the ranges the fixed-point trace supports:
    /// moderate camera and sphere coordinates, a field of view under the
    /// degenerate flat case, an aspect ratio of at most three.
    pub open spec fn wf(self) -> bool {
        &&& in_range3(self.camera_pos, SCENE_RANGE as int)
        &&& self.rotation.wf()
        &&& 0 <= self.tan_half_fov <= 3 * GEO_ONE
        &&& 1 <= self.resolution@[0]
        &&& 1 <= self.resolution@[1]
        &&& self.resolution@[0] <= 3 * self.resolution@[1]
        &&& in_range3(self.offset, SCENE_RANGE as int)
        &&& 0 < self.max_t <= T_RANGE
    }

    /// Width over height, fixed point, rounded down.
    pub open spec fn aspect_spec(self) -> int {
        (self.resolution@[0] * GEO_ONE) / (self.resolution@[1] as int)
    }

    /// Computes [`TraceParams::aspect_spec`].
    pub fn aspect_ratio(&self) -> (a: i64)
        requires
            self.wf(),
        ensures
            a == self.aspect_spec(),
            0 <= a <= 3 * GEO_ONE,
    {
        let w: u64 = self.resolution[0] as u64 * GEO_ONE as u64;
        let q: u64 = w / self.resolution[1] as u64;
        proof {
            let h = self.resolution@[1] as int;
            vstd::arithmetic::div_mod::lemma_div_is_ordered(
                w as int,
                3 * h * GEO_ONE,
                h,
            );
            vstd::arithmetic::div_mod::lemma_div_by_multiple(3 * GEO_ONE, h);
            assert(3 * h * GEO_ONE == (3 * GEO_ONE) * h) by (nonlinear_arith);
            vstd::arithmetic::div_mod::lemma_div_pos_is_pos(w as int, h);
        }
        q as i64
    }

    /// The ray direction through a pixel at the given normalized device
    /// coordinates: the tangent plane point, scaled by the aspect ratio
    /// horizontally, rotated by the camera rotation.
    pub open spec fn ray_dir_spec(self, ndc_x: int, ndc_y: int) -> Seq<int> {
        let px = mul_div_trunc(
            mul_div_trunc(ndc_x, self.tan_half_fov as int),
            self.aspect_spec(),
        );
        let py = mul_div_trunc(ndc_y, self.tan_half_fov as int);
        let m = self.rotation.rows;
        seq![
            div_rot_trunc(m@[0]@[0] * px + m@[0]@[1] * py + m@[0]@[2] * (GEO_ONE as int)),
            div_rot_trunc(m@[1]@[0] * px + m@[1]@[1] * py + m@[1]@[2] * (GEO_ONE as int)),
            div_rot_trunc(m@[2]@[0] * px + m@[2]@[1] * py + m@[2]@[2] * (GEO_ONE as int)),
        ]
    }

    /// Builds the camera ray through the pixel at the given normalized
    /// device coordinates (each in `[-GEO_ONE, GEO_ONE]`).
    pub fn ray_from_ndc(&self, ndc: [i64; 2]) -> (r: Ray)
        requires
            self.wf(),
            -GEO_ONE <= ndc@[0] <= GEO_ONE,
            -GEO_ONE <= ndc@[1] <= GEO_ONE,
        ensures
            r.origin@ == self.camera_pos@,
            r.max_t == self.max_t,
            seq3(r.direction) == self.ray_dir_spec(ndc@[0] as int, ndc@[1] as int),
            r.wf(),
    {
        let aspect = self.aspect_ratio();
        let t1 = mul_div_one(ndc[0], self.tan_half_fov);
        proof {
            lemma_mul_div_trunc_bound(
                ndc@[0] as int,
                self.tan_half_fov as int,
                GEO_ONE as int,
                3 * GEO_ONE,
                3 * GEO_ONE,
            );
        }
        let px = mul_div_one(t1, aspect);
        proof {
            lemma_mul_div_trunc_bound(
                t1 as int,
                aspect as int,
                3 * GEO_ONE,
                3 * GEO_ONE,
                9 * GEO_ONE,
            );
        }
        let py = mul_div_one(ndc[1], self.tan_half_fov);
        proof {
            lemma_mul_div_trunc_bound(
                ndc@[1] as int,
                self.tan_half_fov as int,
                GEO_ONE as int,
                3 * GEO_ONE,
                3 * GEO_ONE,
            );
        }
        let m = self.rotation.rows;
        proof {
            lemma_mul_bound(m@[0]@[0] as int, px as int, ROT_SCALE as int, 9 * GEO_ONE);
            lemma_mul_bound(m@[0]@[1] as int, py as int, ROT_SCALE as int, 3 * GEO_ONE);
            lemma_mul_bound(m@[0]@[2] as int, GEO_ONE as int, ROT_SCALE as int, GEO_ONE as int);
            lemma_mul_bound(m@[1]@[0] as int, px as int, ROT_SCALE as int, 9 * GEO_ONE);
            lemma_mul_bound(m@[1]@[1] as int, py as int, ROT_SCALE as int, 3 * GEO_ONE);
            lemma_mul_bound(m@[1]@[2] as int, GEO_ONE as int, ROT_SCALE as int, GEO_ONE as int);
            lemma_mul_bound(m@[2]@[0] as int, px as int, ROT_SCALE as int, 9 * GEO_ONE);
            lemma_mul_bound(m@[2]@[1] as int, py as int, ROT_SCALE as int, 3 * GEO_ONE);
            lemma_mul_bound(m@[2]@[2] as int, GEO_ONE as int, ROT_SCALE as int, GEO_ONE as int);
        }
        let p0: i64 = m[0][0] * px + m[0][1] * py + m[0][2] * GEO_ONE;
        let p1: i64 = m[1][0] * px + m[1][1] * py + m[1][2] * GEO_ONE;
        let p2: i64 = m[2][0] * px + m[2][1] * py + m[2][2] * GEO_ONE;
        proof {
            lemma_div_rot_bound(p0 as int, 13_000_000_000, 13_000);
            lemma_div_rot_bound(p1 as int, 13_000_000_000, 13_000);
            lemma_div_rot_bound(p2 as int, 13_000_000_000, 13_000);
        }
        let direction = [div_rot(p0), div_rot(p1), div_rot(p2)];
        let r = Ray { origin: self.camera_pos, max_t: self.max_t, direction };
        proof {
            assert(seq3(r.direction) =~= self.ray_dir_spec(ndc@[0] as int, ndc@[1] as int));
        }
        r
    }
}

/// The analytic ray–unit-sphere intersection test: whether the quadratic
/// in the ray parameter (from substituting the ray into the sphere
/// equation) has a root in `[0, max_t]`. Written over the same
/// fixed-point quantities the march uses.
pub open spec fn sphere_hit_spec(
    origin: Seq<int>,
    direction: Seq<int>,
    center: Seq<int>,
    max_t: int,
) -> bool {
    let ox = origin[0] - center[0];
    let oy = origin[1] - center[1];
    let oz = origin[2] - center[2];
    let qa = direction[0] * direction[0] + direction[1] * direction[1] + direction[2]
        * direction[2];
    let qb = 2 * (ox * direction[0] + oy * direction[1] + oz * direction[2]) * (GEO_ONE as int);
    let qc = (ox * ox + oy * oy + oz * oz) * (GEO_ONE as int) * (GEO_ONE as int) - (GEO_ONE as int)
        * (GEO_ONE as int) * (GEO_ONE as int) * (GEO_ONE as int);
    if qc <= 0 {
        // the ray starts inside the sphere
        true
    } else if qb >= 0 {
        // the ray points away from the sphere
        false
    } else {
        let disc = qb * qb - 4 * qa * qc;
        if disc < 0 {
            false
        } else {
            // the near root is (-qb - sqrt(disc)) / (2 qa); it lies within
            // reach exactly when sqrt(disc) >= -qb - 2 qa max_t
            let edge = -qb - 2 * qa * max_t;
            edge <= 0 || disc >= edge * edge
        }
    }
}

/// Computes [`sphere_hit_spec`].
pub fn sphere_hit(origin: [i64; 3], direction: [i64; 3], center: [i64; 3], max_t: i64) -> (hit:
    bool)
    requires
        in_range3(origin, SCENE_RANGE as int),
        in_range3(direction, DIR_RANGE as int),
        in_range3(center, SCENE_RANGE as int),
        0 < max_t <= T_RANGE,
    ensures
        hit == sphere_hit_spec(seq3(origin), seq3(direction), seq3(center), max_t as int),
{
    let ox: i128 = origin[0] as i128 - center[0] as i128;
    let oy: i128 = origin[1] as i128 - center[1] as i128;
    let oz: i128 = origin[2] as i128 - center[2] as i128;
    let dx: i128 = direction[0] as i128;
    let dy: i128 = direction[1] as i128;
    let dz: i128 = direction[2] as i128;
    proof {
        lemma_mul_bound(dx as int, dx as int, DIR_RANGE as int, DIR_RANGE as int);
        lemma_mul_bound(dy as int, dy as int, DIR_RANGE as int, DIR_RANGE as int);
        lemma_mul_bound(dz as int, dz as int, DIR_RANGE as int, DIR_RANGE as int);
        lemma_mul_bound(ox as int, dx as int, 200_000, DIR_RANGE as int);
        lemma_mul_bound(oy as int, dy as int, 200_000, DIR_RANGE as int);
        lemma_mul_bound(oz as int, dz as int, 200_000, DIR_RANGE as int);
        lemma_mul_bound(ox as int, ox as int, 200_000, 200_000);
        lemma_mul_bound(oy as int, oy as int, 200_000, 200_000);
        lemma_mul_bound(oz as int, oz as int, 200_000, 200_000);
    }
    let qa: i128 = dx * dx + dy * dy + dz * dz;
    let s_od: i128 = ox * dx + oy * dy + oz * dz;
    let s_oo: i128 = ox * ox + oy * oy + oz * oz;
    proof {
        lemma_mul_bound(2 * s_od as int, GEO_ONE as int, 48_000_000_000, GEO_ONE as int);
        lemma_mul_bound(s_oo as int, GEO_ONE as int, 120_000_000_000, GEO_ONE as int);
        lemma_mul_bound(
            s_oo as int * (GEO_ONE as int),
            GEO_ONE as int,
            120_000_000_000_000,
            GEO_ONE as int,
        );
    }
    let qb: i128 = 2 * s_od * GEO_ONE as i128;
    let qc: i128 = s_oo * GEO_ONE as i128 * GEO_ONE as i128 - 1_000_000_000_000;
    proof {
        assert(1_000_000_000_000int == (GEO_ONE as int) * (GEO_ONE as int) * (GEO_ONE as int)
            * (GEO_ONE as int));
    }
    if qc <= 0 {
        return true;
    }
    if qb >= 0 {
        return false;
    }
    proof {
        lemma_mul_bound(qb as int, qb as int, 48_000_000_000_000, 48_000_000_000_000);
        lemma_mul_bound(4 * qa as int, qc as int, 19_200_000_000, 120_000_000_000_000_000);
    }
    let disc: i128 = qb * qb - 4 * qa * qc;
    if disc < 0 {
        return false;
    }
    proof {
        lemma_mul_bound(2 * qa as int, max_t as int, 9_600_000_000, T_RANGE as int);
    }
    let edge: i128 = -qb - 2 * qa * max_t as i128;
    proof {
        lemma_mul_bound(edge as int, edge as int, 1_008_000_000_000_000, 1_008_000_000_000_000);
    }
    edge <= 0 || disc >= edge * edge
}

/// The normalized device coordinate of a pixel: its position in the
/// image, mapped to `[-GEO_ONE, GEO_ONE)`.
pub open spec fn ndc_of(coord: int, extent: int) -> int {
    (2 * coord * (GEO_ONE as int)) / extent - GEO_ONE
}

/// Computes [`ndc_of`] for a pixel coordinate inside the image.
pub fn pixel_ndc(coord: u32, extent: u32) -> (n: i64)
    requires
        coord < extent,
    ensures
        n == ndc_of(coord as int, extent as int),
        -GEO_ONE <= n < GEO_ONE,
{
    proof {
        lemma_mul_bound(2 * coord as int, GEO_ONE as int, 8_589_934_590, GEO_ONE as int);
    }
    let scaled: u64 = 2 * coord as u64 * GEO_ONE as u64;
    let q: u64 = scaled / extent as u64;
    proof {
        let e = extent as int;
        vstd::arithmetic::div_mod::lemma_fundamental_div_mod(scaled as int, e);
        assert(q as int * e < 2 * (GEO_ONE as int) * e) by (nonlinear_arith)
            requires
                scaled as int == e * (q as int) + (scaled as int) % e,
                0 <= (scaled as int) % e,
                scaled as int <= 2 * (e - 1) * (GEO_ONE as int),
                0 < e,
        {
        }
        assert(q < 2 * GEO_ONE) by (nonlinear_arith)
            requires
                q as int * e < 2 * (GEO_ONE as int) * e,
                0 < e,
                0 <= q,
        {
        }
    }
    q as i64 - GEO_ONE
}

/// Classifies one pixel the way the patched compute entry point does:
/// build the camera ray through the pixel and sphere-trace it against
/// the distance field.
pub fn renderer(params: &TraceParams, x: u32, y: u32, eps: i64, max_steps: u32) -> (c: PixelClass)
    requires
        params.wf(),
        x < params.resolution@[0],
        y < params.resolution@[1],
        0 <= eps <= GEO_ONE,
    ensures
        c == march_spec(
            seq3(params.camera_pos),
            params.ray_dir_spec(
                ndc_of(x as int, params.resolution@[0] as int),
                ndc_of(y as int, params.resolution@[1] as int),
            ),
            seq3(params.offset),
            params.max_t as int,
            eps as int,
            1,
            max_steps as nat,
        ),
{
    let nx = pixel_ndc(x, params.resolution[0]);
    let ny = pixel_ndc(y, params.resolution[1]);
    let ray = params.ray_from_ndc([nx, ny]);
    proof {
        assert(seq3(ray.origin) =~= seq3(params.camera_pos));
    }
    march(&ray, params.offset, eps, max_steps)
}

} // verus!
