//! Fixed-point planar geometry: positions and offsets in milli-units,
//! exact squared distances, an integer square root, and the bounded-speed
//! steering step used by the movement driver.

use vstd::prelude::*;

verus! {

/// Every coordinate the engine handles stays within this many milli-units of
/// the origin, so that squared planar distances fit in an `i64`.
pub const COORD_LIMIT_MILLI: i64 = 1_000_000_000;

/// Distance a creep covers per tick, in milli-units (0.05 world units).
pub const CREEP_SPEED_MILLI: i64 = 50;

/// Constant downward displacement handed to the external character mover on
/// every step, in milli-units (0.1 world units); it keeps a grounded
/// character controller pressed to the ground plane.
pub const GROUND_BIAS_MILLI: i64 = 100;

/// Largest integer whose square fits in an `i64`.
pub const SQRT_I64_MAX: i64 = 3_037_000_499;

/// A 3D position in milli-units. All steering and distance logic is planar
/// (x, y); z only places spawned units at ground height.
#[derive(Clone, Copy, Debug, PartialEq, Eq, Structural)]
pub struct Pos {
    pub x: i64,
    pub y: i64,
    pub z: i64,
}

/// A planar (x, y) vector in milli-units: an offset, heading or displacement.
#[derive(Clone, Copy, Debug, PartialEq, Eq, Structural)]
pub struct Vec2i {
    pub x: i64,
    pub y: i64,
}

pub open spec fn coord_ok(v: int) -> bool {
    -COORD_LIMIT_MILLI <= v <= COORD_LIMIT_MILLI
}

pub open spec fn pos_ok(p: Pos) -> bool {
    coord_ok(p.x as int) && coord_ok(p.y as int) && coord_ok(p.z as int)
}

pub open spec fn planar_ok(v: Vec2i) -> bool {
    coord_ok(v.x as int) && coord_ok(v.y as int)
}

/// An offset between two in-bounds points: each component within twice the
/// coordinate limit.
pub open spec fn offset_ok(v: Vec2i) -> bool {
    -2 * COORD_LIMIT_MILLI <= v.x <= 2 * COORD_LIMIT_MILLI
        && -2 * COORD_LIMIT_MILLI <= v.y <= 2 * COORD_LIMIT_MILLI
}

/// The planar part of a position.
pub open spec fn spec_xy(p: Pos) -> Vec2i {
    Vec2i { x: p.x, y: p.y }
}

pub fn xy(p: Pos) -> (v: Vec2i)
    ensures
        v == spec_xy(p),
{
    Vec2i { x: p.x, y: p.y }
}

/// Squared length of a planar vector.
pub open spec fn len2(v: Vec2i) -> int {
    v.x * v.x + v.y * v.y
}

/// Exact squared planar distance between two points.
pub open spec fn dist2(a: Vec2i, b: Vec2i) -> int {
    (b.x - a.x) * (b.x - a.x) + (b.y - a.y) * (b.y - a.y)
}

/// Squared planar distance between two 3D positions (z is ignored).
pub open spec fn pos_dist2(a: Pos, b: Pos) -> int {
    dist2(spec_xy(a), spec_xy(b))
}

proof fn lemma_sq_bound(v: i64)
    by (nonlinear_arith)
    requires
        -2 * COORD_LIMIT_MILLI <= v <= 2 * COORD_LIMIT_MILLI,
    ensures
        0 <= v * v <= 4_000_000_000_000_000_000,
{
}

proof fn lemma_sq_fits(v: i64)
    by (nonlinear_arith)
    requires
        0 <= v <= SQRT_I64_MAX,
    ensures
        0 <= v * v <= i64::MAX,
{
}

/// Squares of nonnegative integers are ordered as their arguments.
pub proof fn lemma_sq_mono(a: int, b: int)
    by (nonlinear_arith)
    requires
        0 <= a <= b,
    ensures
        a * a <= b * b,
{
}

/// The planar offset from `from` to `to`.
pub open spec fn spec_offset(from: Vec2i, to: Vec2i) -> Vec2i {
    Vec2i { x: (to.x - from.x) as i64, y: (to.y - from.y) as i64 }
}

/// The planar offset from `from` to `to`.
pub fn planar_offset(from: Vec2i, to: Vec2i) -> (d: Vec2i)
    requires
        planar_ok(from),
        planar_ok(to),
    ensures
        d == spec_offset(from, to),
        d.x == to.x - from.x,
        d.y == to.y - from.y,
        offset_ok(d),
{
    Vec2i { x: to.x - from.x, y: to.y - from.y }
}

/// Squared length of an offset between in-bounds points.
pub fn offset_len2(d: Vec2i) -> (n: i64)
    requires
        offset_ok(d),
    ensures
        n == len2(d),
        0 <= n <= 8_000_000_000_000_000_000,
{
    proof {
        lemma_sq_bound(d.x);
        lemma_sq_bound(d.y);
    }
    d.x * d.x + d.y * d.y
}

/// Exact squared planar distance between two points.
pub fn planar_dist2(a: Vec2i, b: Vec2i) -> (n: i64)
    requires
        planar_ok(a),
        planar_ok(b),
    ensures
        n == dist2(a, b),
        0 <= n,
{
    let d = planar_offset(a, b);
    offset_len2(d)
}

/// `r` is the integer square root of `n` rounded down.
pub open spec fn is_sqrt_floor(n: int, r: int) -> bool {
    0 <= r && r * r <= n && (r + 1) * (r + 1) > n
}

/// There is at most one integer square root.
pub proof fn lemma_sqrt_floor_unique(n: int, r1: int, r2: int)
    requires
        is_sqrt_floor(n, r1),
        is_sqrt_floor(n, r2),
    ensures
        r1 == r2,
{
    if r1 < r2 {
        lemma_sq_mono(r1 + 1, r2);
        assert(false);
    }
    if r2 < r1 {
        lemma_sq_mono(r2 + 1, r1);
        assert(false);
    }
}

/// The integer square root of `n` rounded down (for `n >= 0`).
pub open spec fn sqrt_floor(n: int) -> int {
    choose|r: int| is_sqrt_floor(n, r)
}

/// Integer square root, rounded down.
pub fn isqrt(n: i64) -> (r: i64)
    requires
        n >= 0,
    ensures
        is_sqrt_floor(n as int, r as int),
        r == sqrt_floor(n as int),
        0 <= r <= SQRT_I64_MAX,
{
    let mut lo: i64 = 0;
    let mut hi: i64 = SQRT_I64_MAX;
    proof {
        assert((SQRT_I64_MAX + 1) * (SQRT_I64_MAX + 1) > i64::MAX) by (nonlinear_arith);
    }
    while lo < hi
        invariant
            0 <= lo <= hi <= SQRT_I64_MAX,
            lo * lo <= n,
            (hi + 1) * (hi + 1) > n,
        decreases hi - lo,
    {
        let mid: i64 = lo + (hi - lo + 1) / 2;
        proof {
            lemma_sq_fits(mid);
        }
        if mid * mid <= n {
            lo = mid;
        } else {
            hi = mid - 1;
        }
    }
    proof {
        assert(is_sqrt_floor(n as int, lo as int));
        let r0 = choose|q: int| is_sqrt_floor(n as int, q);
        lemma_sqrt_floor_unique(n as int, r0, lo as int);
    }
    lo
}

/// Truncating (toward-zero) division for a positive divisor, matching what
/// executable `/` computes on `i64`.
pub open spec fn div_toward_zero(a: int, b: int) -> int {
    if a >= 0 {
        a / b
    } else {
        -((-a) / b)
    }
}

/// One steering step along `diff`: the whole remaining offset when it is no
/// longer than one step, else `diff` scaled to length `CREEP_SPEED_MILLI`
/// (componentwise `diff * speed / |diff|`, rounded toward zero). The x
/// component; `steer_step_y` is its mirror.
pub open spec fn steer_step_x(diff: Vec2i) -> int {
    let n = len2(diff);
    if n <= CREEP_SPEED_MILLI * CREEP_SPEED_MILLI {
        diff.x as int
    } else {
        div_toward_zero(diff.x * CREEP_SPEED_MILLI, sqrt_floor(n))
    }
}

/// The y component of one steering step along `diff`.
pub open spec fn steer_step_y(diff: Vec2i) -> int {
    let n = len2(diff);
    if n <= CREEP_SPEED_MILLI * CREEP_SPEED_MILLI {
        diff.y as int
    } else {
        div_toward_zero(diff.y * CREEP_SPEED_MILLI, sqrt_floor(n))
    }
}

/// The steering step never overshoots: each component lies between zero and
/// the corresponding component of the offset.
pub open spec fn component_between(s: int, d: int) -> bool {
    if d >= 0 {
        0 <= s <= d
    } else {
        d <= s <= 0
    }
}

proof fn lemma_scaled_component_between(a: int, l: int)
    by (nonlinear_arith)
    requires
        0 <= a,
        CREEP_SPEED_MILLI <= l,
    ensures
        0 <= a * CREEP_SPEED_MILLI / l <= a,
{
}

/// One component of the scaled steering step: `|d| * speed / l`, with the
/// sign of `d` restored.
fn steer_component(d: i64, l: i64) -> (s: i64)
    requires
        -2 * COORD_LIMIT_MILLI <= d <= 2 * COORD_LIMIT_MILLI,
        CREEP_SPEED_MILLI <= l <= SQRT_I64_MAX,
    ensures
        s == div_toward_zero(d * CREEP_SPEED_MILLI, l as int),
        component_between(s as int, d as int),
{
    if d >= 0 {
        let q: i64 = d * CREEP_SPEED_MILLI / l;
        proof {
            lemma_scaled_component_between(d as int, l as int);
        }
        q
    } else {
        let a: i64 = -d;
        let q: i64 = a * CREEP_SPEED_MILLI / l;
        proof {
            lemma_scaled_component_between(a as int, l as int);
        }
        -q
    }
}

/// One bounded-speed steering step toward the end of `diff`.
pub fn steer(diff: Vec2i) -> (s: Vec2i)
    requires
        offset_ok(diff),
    ensures
        s.x == steer_step_x(diff),
        s.y == steer_step_y(diff),
        component_between(s.x as int, diff.x as int),
        component_between(s.y as int, diff.y as int),
{
    let n = offset_len2(diff);
    if n <= CREEP_SPEED_MILLI * CREEP_SPEED_MILLI {
        diff
    } else {
        let l = isqrt(n);
        proof {
            if l < CREEP_SPEED_MILLI {
                lemma_sq_mono(l as int + 1, CREEP_SPEED_MILLI as int);
            }
        }
        Vec2i { x: steer_component(diff.x, l), y: steer_component(diff.y, l) }
    }
}

} // verus!
