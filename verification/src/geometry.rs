//! Integer rectangle geometry: the coordinate grid, the mathematical
//! model of a rectangle, the strict overlap test, the clockwise
//! quarter-turn, and rational interpolation between coordinates.

use vstd::prelude::*;

verus! {

/// Every authored coordinate lies in the square `[-COORD_LIMIT, COORD_LIMIT]`.
/// The bound keeps all geometry arithmetic comfortably inside `i64`.
pub const COORD_LIMIT: i64 = 1048576;

/// Upper bound on the denominator of an interpolation factor; a keyframe
/// hold duration must stay below this so that `duration + 1` is a legal
/// denominator.
pub const DEN_LIMIT: usize = 1048576;

/// A 2D offset or position on the integer grid.
#[derive(Clone, Copy, Debug, PartialEq, Eq, Structural)]
pub struct Vec2 {
    pub x: i64,
    pub y: i64,
}

impl Vec2 {
    /// The offset lies inside the coordinate square.
    pub open spec fn wf(self) -> bool {
        -COORD_LIMIT <= self.x <= COORD_LIMIT && -COORD_LIMIT <= self.y <= COORD_LIMIT
    }

    pub fn new(x: i64, y: i64) -> (v: Vec2)
        ensures
            v.x == x,
            v.y == y,
    {
        Vec2 { x, y }
    }
}

/// An axis-aligned rectangle: min corner plus width and height.
#[derive(Clone, Copy, Debug, PartialEq, Eq, Structural)]
pub struct Rect {
    pub x: i64,
    pub y: i64,
    pub w: i64,
    pub h: i64,
}

/// The mathematical model of a rectangle, over unbounded integers.
pub ghost struct RectModel {
    pub x: int,
    pub y: int,
    pub w: int,
    pub h: int,
}

impl View for Rect {
    type V = RectModel;

    open spec fn view(&self) -> RectModel {
        RectModel { x: self.x as int, y: self.y as int, w: self.w as int, h: self.h as int }
    }
}

impl Rect {
    /// The rectangle has nonnegative extent and lies inside the
    /// coordinate square.
    pub open spec fn wf(self) -> bool {
        rect_wf(self@)
    }

    pub fn new(x: i64, y: i64, w: i64, h: i64) -> (r: Rect)
        ensures
            r@ == (RectModel { x: x as int, y: y as int, w: w as int, h: h as int }),
    {
        Rect { x, y, w, h }
    }

    /// The degenerate rectangle at the origin.
    pub fn zero() -> (r: Rect)
        ensures
            r@ == zero_rect(),
            r.wf(),
    {
        Rect { x: 0, y: 0, w: 0, h: 0 }
    }
}

/// Nonnegative extent, and all four corners inside the coordinate square.
pub open spec fn rect_wf(m: RectModel) -> bool {
    0 <= m.w && 0 <= m.h && -COORD_LIMIT <= m.x && m.x + m.w <= COORD_LIMIT && -COORD_LIMIT
        <= m.y && m.y + m.h <= COORD_LIMIT
}

pub open spec fn zero_rect() -> RectModel {
    RectModel { x: 0, y: 0, w: 0, h: 0 }
}

/// The rectangle moved by an offset.
pub open spec fn translate(m: RectModel, o: Vec2) -> RectModel {
    RectModel { x: m.x + o.x, y: m.y + o.y, w: m.w, h: m.h }
}

/// Strict overlap: the rectangles share interior area.  Touching edges do
/// not count.
pub open spec fn rects_overlap(a: RectModel, b: RectModel) -> bool {
    a.x < b.x + b.w && b.x < a.x + a.w && a.y < b.y + b.h && b.y < a.y + a.h
}

/// `outer` covers `inner` entirely.
pub open spec fn rect_contains(outer: RectModel, inner: RectModel) -> bool {
    outer.x <= inner.x && outer.y <= inner.y && inner.x + inner.w <= outer.x + outer.w && inner.y
        + inner.h <= outer.y + outer.h
}

/// One clockwise quarter turn about the origin: each corner `(x, y)`
/// moves to `(y, -x)` and the axis-aligned bounds are re-derived, so the
/// rectangle's width and height swap.
pub open spec fn rotate_rect(m: RectModel) -> RectModel {
    RectModel { x: m.y, y: -m.x - m.w, w: m.h, h: m.w }
}

/// `n` clockwise quarter turns.
pub open spec fn rotate_rect_n(m: RectModel, n: nat) -> RectModel
    decreases n,
{
    if n == 0 {
        m
    } else {
        rotate_rect(rotate_rect_n(m, (n - 1) as nat))
    }
}

/// Interpolated geometry may stick out of the authored square by a
/// bounded amount; every rectangle the library handles satisfies this
/// looser bound, which still keeps all arithmetic inside `i64`.
pub open spec fn rect_loose(m: RectModel) -> bool {
    0 <= m.w && 0 <= m.h && -3 * COORD_LIMIT <= m.x && m.x + m.w <= 3 * COORD_LIMIT && -3
        * COORD_LIMIT <= m.y && m.y + m.h <= 3 * COORD_LIMIT
}

/// An interpolation factor `num / den` lying in `[0, 1]`.
#[derive(Clone, Copy, Debug, PartialEq, Eq, Structural)]
pub struct Frac {
    pub num: usize,
    pub den: usize,
}

impl Frac {
    pub open spec fn wf(self) -> bool {
        1 <= self.den <= DEN_LIMIT && self.num <= self.den
    }

    pub fn new(num: usize, den: usize) -> (f: Frac)
        requires
            1 <= den <= DEN_LIMIT,
            num <= den,
        ensures
            f.num == num,
            f.den == den,
            f.wf(),
    {
        Frac { num, den }
    }

    /// The factor 0: interpolation stays at the start value.
    pub fn zero() -> (f: Frac)
        ensures
            f.num == 0,
            f.den == 1,
            f.wf(),
    {
        Frac { num: 0, den: 1 }
    }

    /// The factor 1: interpolation reaches the end value.
    pub fn one() -> (f: Frac)
        ensures
            f.num == 1,
            f.den == 1,
            f.wf(),
    {
        Frac { num: 1, den: 1 }
    }
}

/// The interpolated coordinate `a + (b - a) * num / den`, where `/` is
/// flooring (Euclidean) division.
pub open spec fn lerp_val(a: int, b: int, num: int, den: int) -> int {
    a + (b - a) * num / den
}

/// Componentwise interpolation of a rectangle.
pub open spec fn lerp_rect(a: RectModel, b: RectModel, t: Frac) -> RectModel {
    RectModel {
        x: lerp_val(a.x, b.x, t.num as int, t.den as int),
        y: lerp_val(a.y, b.y, t.num as int, t.den as int),
        w: lerp_val(a.w, b.w, t.num as int, t.den as int),
        h: lerp_val(a.h, b.h, t.num as int, t.den as int),
    }
}

/// Twined interpolation: the position first moves toward the target by
/// `t`, then that displacement is damped by `twine`; width and height
/// interpolate by `t` alone.
pub open spec fn twine_rect(a: RectModel, b: RectModel, t: Frac, twine: Frac) -> RectModel {
    let lx = lerp_val(a.x, b.x, t.num as int, t.den as int);
    let ly = lerp_val(a.y, b.y, t.num as int, t.den as int);
    RectModel {
        x: lerp_val(a.x, lx, twine.num as int, twine.den as int),
        y: lerp_val(a.y, ly, twine.num as int, twine.den as int),
        w: lerp_val(a.w, b.w, t.num as int, t.den as int),
        h: lerp_val(a.h, b.h, t.num as int, t.den as int),
    }
}

/// Interpolating by the factor 0 returns the start coordinate.
pub proof fn lemma_lerp_val_zero(a: int, b: int, den: int)
    requires
        0 < den,
    ensures
        lerp_val(a, b, 0, den) == a,
{
    assert((b - a) * 0 == 0) by (nonlinear_arith);
    vstd::arithmetic::div_mod::lemma_div_of0(den);
}

/// Interpolating by the factor 1 returns the end coordinate.
pub proof fn lemma_lerp_val_one(a: int, b: int, den: int)
    requires
        0 < den,
    ensures
        lerp_val(a, b, den, den) == b,
{
    vstd::arithmetic::mul::lemma_mul_is_commutative(b - a, den);
    vstd::arithmetic::div_mod::lemma_div_multiples_vanish(b - a, den);
}

/// Twined interpolation at `t = 0` returns the start rectangle
/// unchanged, whatever the twine factor.
pub proof fn lemma_twine_rect_at_start(a: RectModel, b: RectModel, t: Frac, twine: Frac)
    requires
        t.wf(),
        twine.wf(),
        t.num == 0,
    ensures
        twine_rect(a, b, t, twine) == a,
{
    lemma_lerp_val_zero(a.x, b.x, t.den as int);
    lemma_lerp_val_zero(a.y, b.y, t.den as int);
    lemma_lerp_val_zero(a.w, b.w, t.den as int);
    lemma_lerp_val_zero(a.h, b.h, t.den as int);
    lemma_lerp_val_zero(a.x, a.x, twine.den as int);
    lemma_lerp_val_zero(a.y, a.y, twine.den as int);
    lemma_lerp_val_one(a.x, a.x, twine.den as int);
    lemma_lerp_val_one(a.y, a.y, twine.den as int);
    if twine.num == 0 {
    } else if twine.num == twine.den {
    } else {
        lemma_lerp_bounds(a.x, a.x, twine.num as int, twine.den as int);
        lemma_lerp_bounds(a.y, a.y, twine.num as int, twine.den as int);
    }
}

/// Twined interpolation at `t = 1` with full twine returns the target
/// rectangle.
pub proof fn lemma_twine_rect_at_end(a: RectModel, b: RectModel, t: Frac, twine: Frac)
    requires
        t.wf(),
        twine.wf(),
        t.num == t.den,
        twine.num == twine.den,
    ensures
        twine_rect(a, b, t, twine) == b,
{
    lemma_lerp_val_one(a.x, b.x, t.den as int);
    lemma_lerp_val_one(a.y, b.y, t.den as int);
    lemma_lerp_val_one(a.w, b.w, t.den as int);
    lemma_lerp_val_one(a.h, b.h, t.den as int);
    lemma_lerp_val_one(a.x, b.x, twine.den as int);
    lemma_lerp_val_one(a.y, b.y, twine.den as int);
}

/// Twined interpolation at `t = 1` with twine 0 keeps the start
/// position but takes the target's size: twine suppresses motion while
/// the resize still completes.
pub proof fn lemma_twine_rect_no_motion(a: RectModel, b: RectModel, t: Frac, twine: Frac)
    requires
        t.wf(),
        twine.wf(),
        t.num == t.den,
        twine.num == 0,
    ensures
        twine_rect(a, b, t, twine) == (RectModel { x: a.x, y: a.y, w: b.w, h: b.h }),
{
    lemma_lerp_val_one(a.x, b.x, t.den as int);
    lemma_lerp_val_one(a.y, b.y, t.den as int);
    lemma_lerp_val_one(a.w, b.w, t.den as int);
    lemma_lerp_val_one(a.h, b.h, t.den as int);
    lemma_lerp_val_zero(a.x, b.x, twine.den as int);
    lemma_lerp_val_zero(a.y, b.y, twine.den as int);
}

/// For a nonnegative numerator, negated flooring division is the
/// familiar ceiling formula.
proof fn lemma_neg_ceil_div(p: int, d: int)
    requires
        0 <= p,
        0 < d,
    ensures
        (-p) / d == -((p + d - 1) / d),
{
    let q = (p + d - 1) / d;
    let r = (p + d - 1) % d;
    vstd::arithmetic::div_mod::lemma_fundamental_div_mod(p + d - 1, d);
    assert((-q) * d == -(d * q)) by (nonlinear_arith);
    vstd::arithmetic::div_mod::lemma_fundamental_div_mod_converse(-p, d, -q, d - 1 - r);
}

/// The interpolated coordinate lies between its two endpoints.
pub proof fn lemma_lerp_bounds(a: int, b: int, num: int, den: int)
    requires
        0 <= num <= den,
        0 < den,
    ensures
        a <= b ==> a <= lerp_val(a, b, num, den) <= b,
        b <= a ==> b <= lerp_val(a, b, num, den) <= a,
{
    if a <= b {
        let delta = b - a;
        let p = delta * num;
        vstd::arithmetic::mul::lemma_mul_nonnegative(delta, num);
        vstd::arithmetic::div_mod::lemma_div_pos_is_pos(p, den);
        vstd::arithmetic::mul::lemma_mul_inequality(num, den, delta);
        vstd::arithmetic::mul::lemma_mul_is_commutative(delta, num);
        vstd::arithmetic::mul::lemma_mul_is_commutative(delta, den);
        vstd::arithmetic::div_mod::lemma_div_is_ordered(p, delta * den, den);
        vstd::arithmetic::div_mod::lemma_div_by_multiple(delta, den);
    } else {
        let delta = a - b;
        let p = delta * num;
        vstd::arithmetic::mul::lemma_mul_nonnegative(delta, num);
        vstd::arithmetic::mul::lemma_mul_unary_negation(delta, num);
        lemma_neg_ceil_div(p, den);
        let q = (p + den - 1) / den;
        vstd::arithmetic::div_mod::lemma_div_pos_is_pos(p + den - 1, den);
        vstd::arithmetic::mul::lemma_mul_inequality(num, den, delta);
        vstd::arithmetic::mul::lemma_mul_is_commutative(delta, num);
        vstd::arithmetic::mul::lemma_mul_is_commutative(delta, den);
        vstd::arithmetic::div_mod::lemma_div_multiples_vanish_fancy(delta, den - 1, den);
        vstd::arithmetic::div_mod::lemma_div_is_ordered(p + den - 1, delta * den + den - 1, den);
    }
}

/// Flooring division under-approximates sums: dividing two terms
/// separately never exceeds dividing their sum.
proof fn lemma_div_sum_ge(p1: int, p2: int, d: int)
    requires
        0 < d,
    ensures
        p1 / d + p2 / d <= (p1 + p2) / d,
{
    let q1 = p1 / d;
    let r1 = p1 % d;
    let q2 = p2 / d;
    let r2 = p2 % d;
    vstd::arithmetic::div_mod::lemma_fundamental_div_mod(p1, d);
    vstd::arithmetic::div_mod::lemma_fundamental_div_mod(p2, d);
    assert((q1 + q2) * d == d * q1 + d * q2) by (nonlinear_arith);
    assert((q1 + q2 + 1) * d == d * q1 + d * q2 + d) by (nonlinear_arith);
    if r1 + r2 < d {
        vstd::arithmetic::div_mod::lemma_fundamental_div_mod_converse(p1 + p2, d, q1 + q2, r1 + r2);
    } else {
        vstd::arithmetic::div_mod::lemma_fundamental_div_mod_converse(
            p1 + p2,
            d,
            q1 + q2 + 1,
            r1 + r2 - d,
        );
    }
}

/// Interpolating two corner coordinates with the same factor never
/// pushes their sum past the larger of the two endpoint sums.
proof fn lemma_lerp_pair_sum(ax: int, aw: int, bx: int, bw: int, num: int, den: int)
    requires
        0 <= num <= den,
        0 < den,
    ensures
        lerp_val(ax, bx, num, den) + lerp_val(aw, bw, num, den) <= lerp_val(
            ax + aw,
            bx + bw,
            num,
            den,
        ),
{
    let p1 = (bx - ax) * num;
    let p2 = (bw - aw) * num;
    lemma_div_sum_ge(p1, p2, den);
    vstd::arithmetic::mul::lemma_mul_is_distributive_add_other_way(num, bx - ax, bw - aw);
}

/// Componentwise interpolation keeps a rectangle inside the authored
/// square.
pub proof fn lemma_lerp_rect_wf(a: RectModel, b: RectModel, t: Frac)
    requires
        rect_wf(a),
        rect_wf(b),
        t.wf(),
    ensures
        rect_wf(lerp_rect(a, b, t)),
{
    let num = t.num as int;
    let den = t.den as int;
    lemma_lerp_bounds(a.x, b.x, num, den);
    lemma_lerp_bounds(a.y, b.y, num, den);
    lemma_lerp_bounds(a.w, b.w, num, den);
    lemma_lerp_bounds(a.h, b.h, num, den);
    lemma_lerp_pair_sum(a.x, a.w, b.x, b.w, num, den);
    lemma_lerp_pair_sum(a.y, a.h, b.y, b.h, num, den);
    lemma_lerp_bounds(a.x + a.w, b.x + b.w, num, den);
    lemma_lerp_bounds(a.y + a.h, b.y + b.h, num, den);
}

/// Twined interpolation of two authored rectangles stays within the
/// loose bound.
pub proof fn lemma_twine_rect_loose(a: RectModel, b: RectModel, t: Frac, twine: Frac)
    requires
        rect_wf(a),
        rect_wf(b),
        t.wf(),
        twine.wf(),
    ensures
        rect_loose(twine_rect(a, b, t, twine)),
{
    let num = t.num as int;
    let den = t.den as int;
    let lx = lerp_val(a.x, b.x, num, den);
    let ly = lerp_val(a.y, b.y, num, den);
    lemma_lerp_bounds(a.x, b.x, num, den);
    lemma_lerp_bounds(a.y, b.y, num, den);
    lemma_lerp_bounds(a.w, b.w, num, den);
    lemma_lerp_bounds(a.h, b.h, num, den);
    lemma_lerp_bounds(a.x, lx, twine.num as int, twine.den as int);
    lemma_lerp_bounds(a.y, ly, twine.num as int, twine.den as int);
}

/// Runtime interpolation of one coordinate: exactly `lerp_val`, and the
/// result lies between the endpoints.
pub fn lerp_coord(a: i64, b: i64, t: Frac) -> (r: i64)
    requires
        -2 * COORD_LIMIT <= a <= 2 * COORD_LIMIT,
        -2 * COORD_LIMIT <= b <= 2 * COORD_LIMIT,
        t.wf(),
    ensures
        r as int == lerp_val(a as int, b as int, t.num as int, t.den as int),
        a <= b ==> a <= r <= b,
        b <= a ==> b <= r <= a,
{
    proof {
        lemma_lerp_bounds(a as int, b as int, t.num as int, t.den as int);
    }
    let num = t.num as i64;
    let den = t.den as i64;
    if b >= a {
        let delta = b - a;
        proof {
            vstd::arithmetic::mul::lemma_mul_nonnegative(delta as int, num as int);
            vstd::arithmetic::mul::lemma_mul_upper_bound(
                delta as int,
                4 * (COORD_LIMIT as int),
                num as int,
                DEN_LIMIT as int,
            );
        }
        let q = (delta * num) / den;
        a + q
    } else {
        let delta = a - b;
        proof {
            vstd::arithmetic::mul::lemma_mul_nonnegative(delta as int, num as int);
            vstd::arithmetic::mul::lemma_mul_upper_bound(
                delta as int,
                4 * (COORD_LIMIT as int),
                num as int,
                DEN_LIMIT as int,
            );
            vstd::arithmetic::mul::lemma_mul_unary_negation(delta as int, num as int);
        }
        let p = delta * num;
        let q = (p + den - 1) / den;
        proof {
            lemma_neg_ceil_div(p as int, den as int);
        }
        a - q
    }
}

/// Runtime strict-overlap test between two translated rectangles.
pub fn overlap_after_translate(a: Rect, oa: Vec2, b: Rect, ob: Vec2) -> (r: bool)
    requires
        rect_loose(a@),
        rect_loose(b@),
        oa.wf(),
        ob.wf(),
    ensures
        r == rects_overlap(translate(a@, oa), translate(b@, ob)),
{
    let ax = a.x + oa.x;
    let ay = a.y + oa.y;
    let bx = b.x + ob.x;
    let by = b.y + ob.y;
    ax < bx + b.w && bx < ax + a.w && ay < by + b.h && by < ay + a.h
}

/// Overlap is symmetric in its two rectangles, so a single-hitbox
/// collision test answers the same with its sides swapped.
pub proof fn lemma_overlap_symmetric(a: RectModel, b: RectModel)
    ensures
        rects_overlap(a, b) == rects_overlap(b, a),
{
}

/// Rectangles that share only a boundary edge do not overlap: the test
/// is strict.
pub proof fn lemma_touching_edges_do_not_overlap(a: RectModel, b: RectModel)
    requires
        a.x + a.w == b.x || b.x + b.w == a.x || a.y + a.h == b.y || b.y + b.h == a.y,
    ensures
        !rects_overlap(a, b),
{
}

/// Overlap is monotone under containment: shapes inside disjoint covers
/// are themselves disjoint.
pub proof fn lemma_overlap_monotone(ca: RectModel, cb: RectModel, a: RectModel, b: RectModel)
    requires
        rect_contains(ca, a),
        rect_contains(cb, b),
        rects_overlap(a, b),
    ensures
        rects_overlap(ca, cb),
{
}

/// A quarter turn keeps a rectangle inside the coordinate square.
pub proof fn lemma_rotate_wf(m: RectModel)
    requires
        rect_wf(m),
    ensures
        rect_wf(rotate_rect(m)),
{
}

/// Four quarter turns are the identity.
pub proof fn lemma_rotate_four_identity(m: RectModel)
    ensures
        rotate_rect_n(m, 4) == m,
{
    reveal_with_fuel(rotate_rect_n, 5);
}

/// Quarter-turn counts add up.
pub proof fn lemma_rotate_n_add(m: RectModel, a: nat, b: nat)
    ensures
        rotate_rect_n(rotate_rect_n(m, a), b) == rotate_rect_n(m, a + b),
    decreases b,
{
    if b > 0 {
        lemma_rotate_n_add(m, a, (b - 1) as nat);
    }
}

/// Any multiple of four quarter turns is the identity.
pub proof fn lemma_rotate_multiple_of_four(m: RectModel, k: nat)
    ensures
        rotate_rect_n(m, 4 * k) == m,
    decreases k,
{
    if k > 0 {
        lemma_rotate_multiple_of_four(m, (k - 1) as nat);
        lemma_rotate_n_add(m, 4 * (k - 1) as nat, 4);
        lemma_rotate_four_identity(rotate_rect_n(m, 4 * (k - 1) as nat));
    }
}

/// Rotating `r` times and then `4 - r % 4` more times is the identity:
/// any rotation undoes itself with the complementary quarter turns.
pub proof fn lemma_rotation_round_trip(m: RectModel, r: nat)
    ensures
        rotate_rect_n(rotate_rect_n(m, r), (4 - r % 4) as nat) == m,
{
    lemma_rotate_n_add(m, r, (4 - r % 4) as nat);
    assert(r + (4 - r % 4) == 4 * (r / 4 + 1)) by {
        vstd::arithmetic::div_mod::lemma_fundamental_div_mod(r as int, 4);
    }
    lemma_rotate_multiple_of_four(m, (r / 4 + 1) as nat);
}

} // verus!
