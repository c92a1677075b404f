//! Fixed-point plane geometry: points, linear interpolation along a segment,
//! and the trigonometry used to place the vertices of a regular polygon.
//!
//! A coordinate is a `u64` counting `SCALE`-ths of a pixel, so pixel `p`
//! covers the coordinate range `[p * SCALE, (p + 1) * SCALE)`. Angles are
//! `u64` values counting `TURN`-ths of a full turn.

use vstd::prelude::*;

verus! {

/// Coordinate units per pixel.
pub const SCALE: u64 = 65536;

/// Angle units in a full turn.
pub const TURN: u64 = 65536;

/// Angle units in half a turn.
pub const HALF_TURN: u64 = 32768;

/// Angle units in a quarter turn.
pub const QUARTER_TURN: u64 = 16384;

/// Largest pixel dimension a canvas may have.
pub const MAX_DIM: u64 = 4096;

/// Largest coordinate value the geometry functions accept; keeps every
/// intermediate product comfortably inside `u64`/`i64`.
pub const MAX_COORD: u64 = MAX_DIM * SCALE;

/// A point of the image plane, in fixed-point coordinates.
#[derive(Clone, Copy, PartialEq, Eq, Structural, Debug)]
pub struct Point {
    pub x: u64,
    pub y: u64,
}

/// One fixed-point coordinate of the point a fraction `num / den` of the way
/// from `a` to `b`: `a + (num / den) * (b - a)`, with the division truncated
/// toward `a`.
pub open spec fn lerp1(a: int, b: int, num: int, den: int) -> int {
    if b >= a {
        a + (num * (b - a)) / den
    } else {
        a - (num * (a - b)) / den
    }
}

/// The interpolated coordinate lies between its two endpoints.
pub proof fn lemma_lerp1_between(a: int, b: int, num: int, den: int)
    requires
        0 <= num <= den,
        1 <= den,
    ensures
        b >= a ==> a <= lerp1(a, b, num, den) <= b,
        b < a ==> b <= lerp1(a, b, num, den) <= a,
{
    if b >= a {
        vstd::arithmetic::mul::lemma_mul_nonnegative(num, b - a);
        vstd::arithmetic::div_mod::lemma_div_is_ordered(0, num * (b - a), den);
        vstd::arithmetic::mul::lemma_mul_inequality(num, den, b - a);
        vstd::arithmetic::div_mod::lemma_div_is_ordered(num * (b - a), den * (b - a), den);
        vstd::arithmetic::div_mod::lemma_div_multiples_vanish(b - a, den);
    } else {
        vstd::arithmetic::mul::lemma_mul_nonnegative(num, a - b);
        vstd::arithmetic::div_mod::lemma_div_is_ordered(0, num * (a - b), den);
        vstd::arithmetic::mul::lemma_mul_inequality(num, den, a - b);
        vstd::arithmetic::div_mod::lemma_div_is_ordered(num * (a - b), den * (a - b), den);
        vstd::arithmetic::div_mod::lemma_div_multiples_vanish(a - b, den);
    }
}

/// A zero fraction returns the first endpoint exactly.
pub proof fn lemma_lerp1_zero(a: int, b: int, den: int)
    requires
        1 <= den,
    ensures
        lerp1(a, b, 0, den) == a,
{
}

/// A fraction of one returns the second endpoint exactly.
pub proof fn lemma_lerp1_one(a: int, b: int, den: int)
    requires
        1 <= den,
    ensures
        lerp1(a, b, den, den) == b,
{
    if b >= a {
        vstd::arithmetic::div_mod::lemma_div_multiples_vanish(b - a, den);
    } else {
        vstd::arithmetic::div_mod::lemma_div_multiples_vanish(a - b, den);
    }
}

/// A fraction of one half returns the exact midpoint whenever the midpoint
/// is a whole coordinate.
pub proof fn lemma_lerp1_half(a: int, b: int)
    requires
        (a + b) % 2 == 0,
    ensures
        lerp1(a, b, 1, 2) == (a + b) / 2,
{
}

/// A fraction of zero returns the first endpoint: both coordinates of
/// `point_on_fraction(a, b, 0, den)` equal those of `a`.
pub proof fn lemma_point_on_fraction_zero(a: Point, b: Point, den: int)
    requires
        1 <= den,
    ensures
        lerp1(a.x as int, b.x as int, 0, den) == a.x,
        lerp1(a.y as int, b.y as int, 0, den) == a.y,
{
    lemma_lerp1_zero(a.x as int, b.x as int, den);
    lemma_lerp1_zero(a.y as int, b.y as int, den);
}

/// A fraction of one returns the second endpoint: both coordinates of
/// `point_on_fraction(a, b, den, den)` equal those of `b`.
pub proof fn lemma_point_on_fraction_one(a: Point, b: Point, den: int)
    requires
        1 <= den,
    ensures
        lerp1(a.x as int, b.x as int, den, den) == b.x,
        lerp1(a.y as int, b.y as int, den, den) == b.y,
{
    lemma_lerp1_one(a.x as int, b.x as int, den);
    lemma_lerp1_one(a.y as int, b.y as int, den);
}

/// A fraction of one half returns the exact midpoint whenever both
/// midpoint coordinates are whole.
pub proof fn lemma_point_on_fraction_half(a: Point, b: Point)
    requires
        (a.x + b.x) % 2 == 0,
        (a.y + b.y) % 2 == 0,
    ensures
        lerp1(a.x as int, b.x as int, 1, 2) == (a.x + b.x) / 2,
        lerp1(a.y as int, b.y as int, 1, 2) == (a.y + b.y) / 2,
{
    lemma_lerp1_half(a.x as int, b.x as int);
    lemma_lerp1_half(a.y as int, b.y as int);
}

/// Vertex placement is a pure function of its inputs: any two points that
/// satisfy the contract of `vertex_position` for the same arguments are
/// the same point.
pub proof fn lemma_vertex_position_deterministic(
    p1: Point,
    p2: Point,
    k: int,
    n: int,
    radius: int,
    cx: int,
    cy: int,
)
    requires
        p1.x == vertex_x_spec(k, n, radius, cx),
        p1.y == vertex_y_spec(k, n, radius, cy),
        p2.x == vertex_x_spec(k, n, radius, cx),
        p2.y == vertex_y_spec(k, n, radius, cy),
    ensures
        p1 == p2,
{
}

fn lerp_coord(a: u64, b: u64, num: u32, den: u32) -> (r: u64)
    requires
        1 <= den,
        num <= den,
        a <= MAX_COORD,
        b <= MAX_COORD,
    ensures
        r == lerp1(a as int, b as int, num as int, den as int),
{
    proof {
        lemma_lerp1_between(a as int, b as int, num as int, den as int);
    }
    if b >= a {
        let diff: u64 = b - a;
        proof {
            vstd::arithmetic::mul::lemma_mul_upper_bound(
                num as int, den as int, diff as int, MAX_COORD as int);
            vstd::arithmetic::mul::lemma_mul_nonnegative(num as int, diff as int);
            vstd::arithmetic::mul::lemma_mul_inequality(num as int, den as int, diff as int);
            vstd::arithmetic::div_mod::lemma_div_is_ordered(
                num as int * diff as int, den as int * diff as int, den as int);
            vstd::arithmetic::div_mod::lemma_div_multiples_vanish(diff as int, den as int);
        }
        let scaled: u64 = (num as u64) * diff;
        a + scaled / (den as u64)
    } else {
        let diff: u64 = a - b;
        proof {
            vstd::arithmetic::mul::lemma_mul_upper_bound(
                num as int, den as int, diff as int, MAX_COORD as int);
            vstd::arithmetic::mul::lemma_mul_nonnegative(num as int, diff as int);
            vstd::arithmetic::mul::lemma_mul_inequality(num as int, den as int, diff as int);
            vstd::arithmetic::div_mod::lemma_div_is_ordered(
                num as int * diff as int, den as int * diff as int, den as int);
            vstd::arithmetic::div_mod::lemma_div_multiples_vanish(diff as int, den as int);
        }
        let scaled: u64 = (num as u64) * diff;
        a - scaled / (den as u64)
    }
}

/// Fixed-point sine over the first half turn, by a rational approximation
/// that is exact at `0`, `HALF_TURN / 2` and `HALF_TURN`: with
/// `p = a * (HALF_TURN - a)`, the value is
/// `16 * p * SCALE / (5 * HALF_TURN^2 - 4 * p)`.
pub open spec fn sin_half_spec(a: int) -> int {
    (16 * (a * (HALF_TURN - a)) * SCALE) / (5 * (HALF_TURN * HALF_TURN) - 4 * (a * (
    HALF_TURN - a)))
}

/// Fixed-point sine of an angle in `[0, TURN)`, in `SCALE`-ths of one.
pub open spec fn sin_spec(a: int) -> int {
    if a <= HALF_TURN {
        sin_half_spec(a)
    } else {
        -sin_half_spec(a - HALF_TURN)
    }
}

/// Fixed-point cosine of an angle in `[0, TURN)`, in `SCALE`-ths of one.
pub open spec fn cos_spec(a: int) -> int {
    sin_spec((a + QUARTER_TURN) % (TURN as int))
}

fn sin_half(a: u64) -> (r: u64)
    requires
        a <= HALF_TURN,
    ensures
        r == sin_half_spec(a as int),
        r <= SCALE,
{
    proof {
        vstd::arithmetic::mul::lemma_mul_upper_bound(
            a as int, HALF_TURN as int, HALF_TURN - a, HALF_TURN as int);
        vstd::arithmetic::mul::lemma_mul_nonnegative(a as int, HALF_TURN - a);
        assert(4 * (a * (HALF_TURN - a)) <= HALF_TURN * HALF_TURN) by (nonlinear_arith)
            requires
                0 <= a <= HALF_TURN,
        ;
    }
    let p: u64 = a * (HALF_TURN - a);
    let numer: u64 = 16 * p * SCALE;
    let denom: u64 = 5 * (HALF_TURN * HALF_TURN) - 4 * p;
    proof {
        assert(numer <= SCALE * denom);
        vstd::arithmetic::div_mod::lemma_div_is_ordered(
            numer as int, SCALE * denom, denom as int);
        vstd::arithmetic::div_mod::lemma_div_multiples_vanish(SCALE as int, denom as int);
        vstd::arithmetic::mul::lemma_mul_is_commutative(SCALE as int, denom as int);
    }
    numer / denom
}

/// Fixed-point sine: the magnitude comes from `sin_half`, the second half
/// turn is its mirror image below zero.
pub fn sin_fx(a: u64) -> (r: i64)
    requires
        a < TURN,
    ensures
        r == sin_spec(a as int),
        -(SCALE as int) <= r as int <= SCALE as int,
{
    if a <= HALF_TURN {
        let m: u64 = sin_half(a);
        m as i64
    } else {
        let m: u64 = sin_half(a - HALF_TURN);
        -(m as i64)
    }
}

/// Fixed-point cosine: sine shifted a quarter turn.
pub fn cos_fx(a: u64) -> (r: i64)
    requires
        a < TURN,
    ensures
        r == cos_spec(a as int),
        -(SCALE as int) <= r as int <= SCALE as int,
{
    let b: u64 = (a + QUARTER_TURN) % TURN;
    sin_fx(b)
}

/// The angle of vertex `k` of a regular `n`-gon, in angle units:
/// `k / n`-th of a full turn, truncated to a whole angle unit.
pub open spec fn vertex_angle(k: int, n: int) -> int {
    (k * TURN) / n
}

/// The x coordinate of vertex `k` of a regular `n`-gon with the given
/// circumscribed-circle radius (in pixels) around center `(cx, cy)` (in
/// pixels).
pub open spec fn vertex_x_spec(k: int, n: int, radius: int, cx: int) -> int {
    cx * SCALE + radius * cos_spec(vertex_angle(k, n))
}

/// The y coordinate of vertex `k`; see `vertex_x_spec`.
pub open spec fn vertex_y_spec(k: int, n: int, radius: int, cy: int) -> int {
    cy * SCALE + radius * sin_spec(vertex_angle(k, n))
}

/// The position of vertex `k` of a regular polygon with `side_count`
/// equally spaced vertices on the circle of the given radius around
/// `(cx, cy)`; vertices sit at increasing angles `k / side_count` of a full
/// turn. The result is a pure function of the arguments, pinned exactly by
/// the contract, and always lies in the axis-aligned square of half-side
/// `radius` around the center.
pub fn vertex_position(k: u32, side_count: u32, radius: u32, cx: u32, cy: u32) -> (r: Point)
    requires
        3 <= side_count,
        side_count <= TURN,
        k < side_count,
        1 <= radius,
        radius <= cx,
        cx + radius <= MAX_DIM,
        radius <= cy,
        cy + radius <= MAX_DIM,
    ensures
        r.x == vertex_x_spec(k as int, side_count as int, radius as int, cx as int),
        r.y == vertex_y_spec(k as int, side_count as int, radius as int, cy as int),
        (cx - radius) * SCALE <= r.x <= (cx + radius) * SCALE,
        (cy - radius) * SCALE <= r.y <= (cy + radius) * SCALE,
{
    proof {
        vstd::arithmetic::mul::lemma_mul_upper_bound(
            k as int, TURN as int, TURN as int, TURN as int);
        vstd::arithmetic::mul::lemma_mul_strict_inequality(
            k as int, side_count as int, TURN as int);
        vstd::arithmetic::mul::lemma_mul_is_commutative(side_count as int, TURN as int);
        vstd::arithmetic::mul::lemma_mul_nonnegative(k as int, TURN as int);
        vstd::arithmetic::div_mod::lemma_multiply_divide_lt(
            k as int * TURN as int, side_count as int, TURN as int);
        vstd::arithmetic::div_mod::lemma_div_pos_is_pos(
            k as int * TURN as int, side_count as int);
    }
    let angle: u64 = ((k as u64) * TURN) / (side_count as u64);
    let c: i64 = cos_fx(angle);
    let s: i64 = sin_fx(angle);
    let xb: u64 = (cx as u64) * SCALE;
    let yb: u64 = (cy as u64) * SCALE;
    let x: u64 = add_scaled_offset(xb, radius, c, cx);
    let y: u64 = add_scaled_offset(yb, radius, s, cy);
    Point { x, y }
}

/// `base + radius * t` for a trigonometric value `t` in `[-SCALE, SCALE]`,
/// where `base == center * SCALE` and `radius <= center`, so the result
/// never goes below zero.
fn add_scaled_offset(base: u64, radius: u32, t: i64, center: u32) -> (r: u64)
    requires
        base == center * SCALE,
        1 <= radius,
        radius <= center,
        center + radius <= MAX_DIM,
        -(SCALE as int) <= t as int <= SCALE as int,
    ensures
        r == base + radius * t,
        (center - radius) * SCALE <= r <= (center + radius) * SCALE,
{
    proof {
        vstd::arithmetic::mul::lemma_mul_left_inequality(
            radius as int, -(SCALE as int), t as int);
        vstd::arithmetic::mul::lemma_mul_left_inequality(
            radius as int, t as int, SCALE as int);
        vstd::arithmetic::mul::lemma_mul_unary_negation(radius as int, SCALE as int);
        vstd::arithmetic::mul::lemma_mul_is_distributive_sub_other_way(
            SCALE as int, center as int, radius as int);
        vstd::arithmetic::mul::lemma_mul_is_distributive_add_other_way(
            SCALE as int, center as int, radius as int);
        vstd::arithmetic::mul::lemma_mul_is_commutative(SCALE as int, center as int);
        vstd::arithmetic::mul::lemma_mul_is_commutative(
            SCALE as int, center as int - radius as int);
        vstd::arithmetic::mul::lemma_mul_is_commutative(
            SCALE as int, center as int + radius as int);
        vstd::arithmetic::mul::lemma_mul_is_commutative(radius as int, SCALE as int);
    }
    if t >= 0 {
        proof {
            vstd::arithmetic::mul::lemma_mul_upper_bound(
                radius as int, MAX_DIM as int, t as int, SCALE as int);
        }
        base + (radius as u64) * (t as u64)
    } else {
        proof {
            vstd::arithmetic::mul::lemma_mul_upper_bound(
                radius as int, MAX_DIM as int, -(t as int), SCALE as int);
            vstd::arithmetic::mul::lemma_mul_unary_negation(radius as int, t as int);
        }
        base - (radius as u64) * ((-t) as u64)
    }
}

/// The point a fraction `num / den` of the way along the segment from `a`
/// to `b`, computed coordinate-wise. The fraction is not clamped beyond the
/// precondition, and the result is pinned exactly, so a caller controls the
/// interpolation direction: swapping the endpoints changes the result.
pub fn point_on_fraction(a: Point, b: Point, num: u32, den: u32) -> (r: Point)
    requires
        1 <= den,
        num <= den,
        a.x <= MAX_COORD,
        a.y <= MAX_COORD,
        b.x <= MAX_COORD,
        b.y <= MAX_COORD,
    ensures
        r.x == lerp1(a.x as int, b.x as int, num as int, den as int),
        r.y == lerp1(a.y as int, b.y as int, num as int, den as int),
{
    Point { x: lerp_coord(a.x, b.x, num, den), y: lerp_coord(a.y, b.y, num, den) }
}

} // verus!
