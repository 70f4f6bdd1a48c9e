//! Hit regions and overlap queries: the single rectangular `Hitbox`,
//! the compound `HitboxFrame` with its cached bounding box, the
//! keyframed `HitboxFrameString`, and the polymorphic `HitboxType`
//! handle that lets callers hit-test any combination of the three.

use crate::geometry::{
    lerp_coord, overlap_after_translate, rect_contains, rect_loose, rect_wf, rects_overlap,
    rotate_rect, rotate_rect_n, translate, zero_rect, Frac, Rect, RectModel, Vec2, COORD_LIMIT,
};
use crate::geometry::{
    lemma_lerp_rect_wf, lemma_rotate_wf, lemma_twine_rect_loose, lerp_rect, twine_rect,
};
use crate::Direction;
use vstd::prelude::*;

verus! {

/// The smaller of two coordinates.
fn min_coord(a: i64, b: i64) -> (r: i64)
    ensures
        r as int == vstd::math::min(a as int, b as int),
{
    if a > b {
        b
    } else {
        a
    }
}

/// The larger of two coordinates.
fn max_coord(a: i64, b: i64) -> (r: i64)
    ensures
        r as int == vstd::math::max(a as int, b as int),
{
    if a > b {
        a
    } else {
        b
    }
}

/// The least of four coordinates.
pub open spec fn min4(a: int, b: int, c: int, d: int) -> int {
    vstd::math::min(vstd::math::min(a, b), vstd::math::min(c, d))
}

/// The greatest of four coordinates.
pub open spec fn max4(a: int, b: int, c: int, d: int) -> int {
    vstd::math::max(vstd::math::max(a, b), vstd::math::max(c, d))
}

/// An axis-aligned rectangular hit region, authored in Right-facing
/// local space and rotated to other facings on demand.
#[derive(Clone, Copy, Debug, PartialEq, Eq, Structural)]
pub struct Hitbox {
    rect: Rect,
}

impl View for Hitbox {
    type V = RectModel;

    closed spec fn view(&self) -> RectModel {
        self.rect@
    }
}

impl Default for Hitbox {
    /// The degenerate hitbox at the origin.
    fn default() -> (h: Hitbox)
        ensures
            h@ == zero_rect(),
            h.wf(),
    {
        Hitbox { rect: Rect { x: 0, y: 0, w: 0, h: 0 } }
    }
}

impl Hitbox {
    /// The region lies inside the authored coordinate square.
    pub open spec fn wf(self) -> bool {
        rect_wf(self@)
    }

    pub fn new(rect: Rect) -> (h: Hitbox)
        ensures
            h@ == rect@,
    {
        Hitbox { rect }
    }

    /// The stored rectangle.
    pub fn rect(&self) -> (r: Rect)
        ensures
            r@ == self@,
    {
        self.rect
    }

    /// A square region of side `size` centered at `point`.
    pub fn point_size(point: Vec2, size: i64) -> (h: Hitbox)
        requires
            0 <= size,
            -COORD_LIMIT <= point.x - size,
            point.x + size <= COORD_LIMIT,
            -COORD_LIMIT <= point.y - size,
            point.y + size <= COORD_LIMIT,
        ensures
            h@ == (RectModel {
                x: point.x - size / 2,
                y: point.y - size / 2,
                w: size as int,
                h: size as int,
            }),
            h.wf(),
    {
        Hitbox { rect: Rect { x: point.x - size / 2, y: point.y - size / 2, w: size, h: size } }
    }

    /// The axis-aligned rectangle spanned by four points.
    pub fn rect_from_points(points: [(i64, i64); 4]) -> (r: Rect)
        requires
            forall|i: int|
                0 <= i < 4 ==> -COORD_LIMIT <= #[trigger] points@[i].0 <= COORD_LIMIT && -COORD_LIMIT
                    <= points@[i].1 <= COORD_LIMIT,
        ensures
            r@.x == min4(points@[0].0 as int, points@[1].0 as int, points@[2].0 as int, points@[3].0 as int),
            r@.y == min4(points@[0].1 as int, points@[1].1 as int, points@[2].1 as int, points@[3].1 as int),
            r@.x + r@.w == max4(points@[0].0 as int, points@[1].0 as int, points@[2].0 as int, points@[3].0 as int),
            r@.y + r@.h == max4(points@[0].1 as int, points@[1].1 as int, points@[2].1 as int, points@[3].1 as int),
            r.wf(),
    {
        let min_x = min_coord(min_coord(points[0].0, points[1].0), min_coord(points[2].0, points[3].0));
        let min_y = min_coord(min_coord(points[0].1, points[1].1), min_coord(points[2].1, points[3].1));
        let max_x = max_coord(max_coord(points[0].0, points[1].0), max_coord(points[2].0, points[3].0));
        let max_y = max_coord(max_coord(points[0].1, points[1].1), max_coord(points[2].1, points[3].1));
        Rect { x: min_x, y: min_y, w: max_x - min_x, h: max_y - min_y }
    }

    /// One clockwise quarter turn: each corner `(x, y)` moves to
    /// `(y, -x)` and the axis-aligned bounds are re-derived, so width
    /// and height swap.
    pub fn rotate_clockwise(&mut self)
        requires
            old(self).wf(),
        ensures
            final(self)@ == rotate_rect(old(self)@),
            final(self).wf(),
    {
        let r = self.rect;
        let points: [(i64, i64); 4] = [
            (r.y, -r.x),
            (r.y + r.h, -r.x),
            (r.y, -(r.x + r.w)),
            (r.y + r.h, -(r.x + r.w)),
        ];
        self.rect = Self::rect_from_points(points);
        proof {
            lemma_rotate_wf(old(self)@);
        }
    }

    /// The hitbox rotated clockwise by the given number of quarter
    /// turns, toward the given facing; a nonpositive count leaves it
    /// unchanged.
    pub fn as_direction(self, direction: Direction, clockwise_rotations: i32) -> (h: Hitbox)
        requires
            self.wf(),
        ensures
            clockwise_rotations >= 0 ==> h@ == rotate_rect_n(self@, clockwise_rotations as nat),
            clockwise_rotations < 0 ==> h@ == self@,
            h.wf(),
    {
        let mut rotated = self;
        let mut remaining = clockwise_rotations;
        while remaining > 0
            invariant
                rotated.wf(),
                remaining <= clockwise_rotations,
                clockwise_rotations >= 0 ==> 0 <= remaining && rotated@ == rotate_rect_n(
                    self@,
                    (clockwise_rotations - remaining) as nat,
                ),
                clockwise_rotations < 0 ==> rotated@ == self@ && remaining == clockwise_rotations,
            decreases remaining,
        {
            rotated.rotate_clockwise();
            remaining = remaining - 1;
        }
        rotated
    }

    /// Identical to [`Hitbox::as_direction`]; kept as a separate entry
    /// point for rotation applied to members of a compound shape.
    pub fn as_direction_centered(self, direction: Direction, clockwise_rotations: i32) -> (h: Hitbox)
        requires
            self.wf(),
        ensures
            clockwise_rotations >= 0 ==> h@ == rotate_rect_n(self@, clockwise_rotations as nat),
            clockwise_rotations < 0 ==> h@ == self@,
            h.wf(),
    {
        self.as_direction(direction, clockwise_rotations)
    }

    /// Componentwise interpolation toward `other` by the factor `t`.
    pub fn lerp(&self, other: &Hitbox, t: Frac) -> (h: Hitbox)
        requires
            self.wf(),
            other.wf(),
            t.wf(),
        ensures
            h@ == lerp_rect(self@, other@, t),
            h.wf(),
    {
        proof {
            lemma_lerp_rect_wf(self@, other@, t);
        }
        Hitbox {
            rect: Rect {
                x: lerp_coord(self.rect.x, other.rect.x, t),
                y: lerp_coord(self.rect.y, other.rect.y, t),
                w: lerp_coord(self.rect.w, other.rect.w, t),
                h: lerp_coord(self.rect.h, other.rect.h, t),
            },
        }
    }

    /// Interpolation toward `target` by `t` whose positional
    /// displacement is additionally damped by `twine`, while width and
    /// height interpolate by `t` alone.
    pub fn twine_lerp(&self, target: &Hitbox, t: Frac, twine: Frac) -> (h: Hitbox)
        requires
            self.wf(),
            target.wf(),
            t.wf(),
            twine.wf(),
        ensures
            h@ == twine_rect(self@, target@, t, twine),
            rect_loose(h@),
    {
        proof {
            lemma_twine_rect_loose(self@, target@, t, twine);
            crate::geometry::lemma_lerp_bounds(
                self@.x,
                target@.x,
                t.num as int,
                t.den as int,
            );
            crate::geometry::lemma_lerp_bounds(
                self@.y,
                target@.y,
                t.num as int,
                t.den as int,
            );
        }
        let target_x = lerp_coord(self.rect.x, target.rect.x, t);
        let target_y = lerp_coord(self.rect.y, target.rect.y, t);
        Hitbox {
            rect: Rect {
                x: lerp_coord(self.rect.x, target_x, twine),
                y: lerp_coord(self.rect.y, target_y, twine),
                w: lerp_coord(self.rect.w, target.rect.w, t),
                h: lerp_coord(self.rect.h, target.rect.h, t),
            },
        }
    }

    /// Strict overlap test between this hitbox and another, each moved
    /// by its own world offset: touching edges do not collide.
    pub fn colliding_single(&self, other: &Hitbox, offset: Vec2, other_offset: Vec2) -> (r: bool)
        requires
            rect_loose(self@),
            rect_loose(other@),
            offset.wf(),
            other_offset.wf(),
        ensures
            r == rects_overlap(translate(self@, offset), translate(other@, other_offset)),
    {
        overlap_after_translate(self.rect, offset, other.rect, other_offset)
    }
}

/// Every rectangle in the sequence satisfies the loose bound.
pub open spec fn all_loose(s: Seq<RectModel>) -> bool {
    forall|i: int| 0 <= i < s.len() ==> rect_loose(#[trigger] s[i])
}

/// Every rectangle in the sequence lies in the authored square.
pub open spec fn all_wf(s: Seq<RectModel>) -> bool {
    forall|i: int| 0 <= i < s.len() ==> rect_wf(#[trigger] s[i])
}

/// The smallest rectangle covering both arguments.
pub open spec fn rect_union(a: RectModel, b: RectModel) -> RectModel {
    RectModel {
        x: vstd::math::min(a.x, b.x),
        y: vstd::math::min(a.y, b.y),
        w: vstd::math::max(a.x + a.w, b.x + b.w) - vstd::math::min(a.x, b.x),
        h: vstd::math::max(a.y + a.h, b.y + b.h) - vstd::math::min(a.y, b.y),
    }
}

/// The union bounding box of a sequence of rectangles; empty sequences
/// give the degenerate rectangle at the origin.
pub open spec fn union_of(s: Seq<RectModel>) -> RectModel
    decreases s.len(),
{
    if s.len() == 0 {
        zero_rect()
    } else if s.len() == 1 {
        s[0]
    } else {
        rect_union(union_of(s.drop_last()), s.last())
    }
}

/// The union of loosely bounded rectangles is loosely bounded.
pub proof fn lemma_union_loose(s: Seq<RectModel>)
    requires
        all_loose(s),
    ensures
        rect_loose(union_of(s)),
    decreases s.len(),
{
    if s.len() > 1 {
        lemma_union_loose(s.drop_last());
    }
}

/// The union bounding box covers each member.
pub proof fn lemma_union_contains(s: Seq<RectModel>)
    ensures
        forall|i: int| 0 <= i < s.len() ==> rect_contains(union_of(s), #[trigger] s[i]),
    decreases s.len(),
{
    if s.len() > 1 {
        lemma_union_contains(s.drop_last());
        assert forall|i: int| 0 <= i < s.len() implies rect_contains(union_of(s), #[trigger] s[i]) by {
            if i < s.len() - 1 {
                assert(rect_contains(union_of(s.drop_last()), s.drop_last()[i]));
            }
        }
    }
}

/// A well-formed frame's cached bounding box always equals the union
/// of its members' rectangles: construction and rotation recompute it,
/// so the cache can never go stale.
pub proof fn lemma_bounding_box_is_union(f: HitboxFrame)
    requires
        f.wf(),
    ensures
        f.bb() == union_of(f.members()),
{
}

/// A compound shape: an ordered set of hitboxes operating as one, the
/// facing they are authored for, and a cached bounding box equal to the
/// union of the members' rectangles, kept for fast rejection of overlap
/// queries.
#[derive(Clone, Debug)]
pub struct HitboxFrame {
    hitboxes: Vec<Hitbox>,
    direction: Direction,
    bounding_box: Rect,
}

/// Copies a list of hitboxes element by element.
pub(crate) fn copy_hitboxes(src: &Vec<Hitbox>) -> (v: Vec<Hitbox>)
    ensures
        v@ == src@,
{
    let mut v: Vec<Hitbox> = Vec::new();
    let mut i: usize = 0;
    while i < src.len()
        invariant
            i <= src@.len(),
            v@ == src@.take(i as int),
        decreases src@.len() - i,
    {
        v.push(src[i]);
        proof {
            assert(v@ =~= src@.take(i + 1));
        }
        i = i + 1;
    }
    proof {
        assert(src@.take(src@.len() as int) =~= src@);
    }
    v
}

impl HitboxFrame {
    /// The members' rectangle models, in order.
    pub closed spec fn members(&self) -> Seq<RectModel> {
        self.hitboxes@.map_values(|h: Hitbox| h@)
    }

    /// The facing the members are currently rotated to.
    pub closed spec fn dir(&self) -> Direction {
        self.direction
    }

    /// The cached bounding box.
    pub closed spec fn bb(&self) -> RectModel {
        self.bounding_box@
    }

    /// The members are loosely bounded and the cached bounding box is
    /// exactly the union of their rectangles.
    pub open spec fn wf(&self) -> bool {
        all_loose(self.members()) && self.bb() == union_of(self.members())
    }

    /// The members all lie in the authored square, so the frame may
    /// still be rotated.
    pub open spec fn members_authored(&self) -> bool {
        all_wf(self.members())
    }

    /// One bounding box that encompasses all of the given hitboxes.
    pub fn calculate_bounding_box(hitboxes: &Vec<Hitbox>) -> (r: Rect)
        requires
            forall|i: int| 0 <= i < hitboxes@.len() ==> rect_loose(#[trigger] hitboxes@[i]@),
        ensures
            r@ == union_of(hitboxes@.map_values(|h: Hitbox| h@)),
            rect_loose(r@),
    {
        let ghost ms = hitboxes@.map_values(|h: Hitbox| h@);
        if hitboxes.len() == 0 {
            return Rect::zero();
        }
        let first = hitboxes[0].rect();
        let mut min_x = first.x;
        let mut min_y = first.y;
        let mut max_x = first.x + first.w;
        let mut max_y = first.y + first.h;
        let mut i: usize = 1;
        proof {
            assert(ms.take(1) =~= seq![ms[0]]);
        }
        while i < hitboxes.len()
            invariant
                1 <= i <= ms.len(),
                ms.len() == hitboxes@.len(),
                forall|k: int| 0 <= k < ms.len() ==> #[trigger] ms[k] == hitboxes@[k]@,
                forall|k: int| 0 <= k < ms.len() ==> rect_loose(#[trigger] ms[k]),
                min_x as int == union_of(ms.take(i as int)).x,
                min_y as int == union_of(ms.take(i as int)).y,
                max_x as int == union_of(ms.take(i as int)).x + union_of(ms.take(i as int)).w,
                max_y as int == union_of(ms.take(i as int)).y + union_of(ms.take(i as int)).h,
                rect_loose(union_of(ms.take(i as int))),
            decreases ms.len() - i,
        {
            let r = hitboxes[i].rect();
            proof {
                assert(ms.take(i + 1).drop_last() =~= ms.take(i as int));
                assert(ms.take(i + 1).last() == ms[i as int]);
            }
            min_x = min_coord(min_x, r.x);
            min_y = min_coord(min_y, r.y);
            max_x = max_coord(max_x, r.x + r.w);
            max_y = max_coord(max_y, r.y + r.h);
            i = i + 1;
        }
        proof {
            assert(ms.take(ms.len() as int) =~= ms);
        }
        Rect { x: min_x, y: min_y, w: max_x - min_x, h: max_y - min_y }
    }

    /// Builds a compound shape, computing the union bounding box of its
    /// members in one pass.
    pub fn new(hitboxes: Vec<Hitbox>, direction: Direction) -> (f: HitboxFrame)
        requires
            forall|i: int| 0 <= i < hitboxes@.len() ==> rect_loose(#[trigger] hitboxes@[i]@),
        ensures
            f.members() == hitboxes@.map_values(|h: Hitbox| h@),
            f.dir() == direction,
            f.wf(),
    {
        let bounding_box = Self::calculate_bounding_box(&hitboxes);
        HitboxFrame { hitboxes, direction, bounding_box }
    }

    /// A compound shape authored for the Right facing.
    pub fn right(hitboxes: Vec<Hitbox>) -> (f: HitboxFrame)
        requires
            forall|i: int| 0 <= i < hitboxes@.len() ==> rect_loose(#[trigger] hitboxes@[i]@),
        ensures
            f.members() == hitboxes@.map_values(|h: Hitbox| h@),
            f.dir() == Direction::Right,
            f.wf(),
    {
        Self::new(hitboxes, Direction::Right)
    }

    /// A compound shape authored for the Up facing.
    pub fn up(hitboxes: Vec<Hitbox>) -> (f: HitboxFrame)
        requires
            forall|i: int| 0 <= i < hitboxes@.len() ==> rect_loose(#[trigger] hitboxes@[i]@),
        ensures
            f.members() == hitboxes@.map_values(|h: Hitbox| h@),
            f.dir() == Direction::Up,
            f.wf(),
    {
        Self::new(hitboxes, Direction::Up)
    }

    /// A compound shape authored for the Left facing.
    pub fn left(hitboxes: Vec<Hitbox>) -> (f: HitboxFrame)
        requires
            forall|i: int| 0 <= i < hitboxes@.len() ==> rect_loose(#[trigger] hitboxes@[i]@),
        ensures
            f.members() == hitboxes@.map_values(|h: Hitbox| h@),
            f.dir() == Direction::Left,
            f.wf(),
    {
        Self::new(hitboxes, Direction::Left)
    }

    /// A compound shape authored for the Down facing.
    pub fn down(hitboxes: Vec<Hitbox>) -> (f: HitboxFrame)
        requires
            forall|i: int| 0 <= i < hitboxes@.len() ==> rect_loose(#[trigger] hitboxes@[i]@),
        ensures
            f.members() == hitboxes@.map_values(|h: Hitbox| h@),
            f.dir() == Direction::Down,
            f.wf(),
    {
        Self::new(hitboxes, Direction::Down)
    }

    /// The number of member hitboxes.
    pub fn len(&self) -> (n: usize)
        ensures
            n == self.members().len(),
    {
        self.hitboxes.len()
    }

    /// The member at the given position.
    pub fn member_at(&self, i: usize) -> (h: &Hitbox)
        requires
            i < self.members().len(),
        ensures
            h@ == self.members()[i as int],
    {
        &self.hitboxes[i]
    }

    /// The member list itself, for copying.
    pub(crate) fn members_vec(&self) -> (v: &Vec<Hitbox>)
        ensures
            v@.map_values(|h: Hitbox| h@) == self.members(),
    {
        &self.hitboxes
    }

    /// The facing the members are rotated to.
    pub fn direction(&self) -> (d: Direction)
        ensures
            d == self.dir(),
    {
        self.direction
    }

    /// The cached union bounding box.
    pub fn bounding_box(&self) -> (r: Rect)
        ensures
            r@ == self.bb(),
    {
        self.bounding_box
    }
}

/// The rectangle `m`, moved by `oa`, strictly overlaps some member of
/// `b` moved by `ob`.
pub open spec fn hitbox_hits_frame(m: RectModel, b: Seq<RectModel>, oa: Vec2, ob: Vec2) -> bool {
    exists|j: int|
        0 <= j < b.len() && rects_overlap(translate(m, oa), translate(#[trigger] b[j], ob))
}

/// Some member of `a`, moved by `oa`, strictly overlaps some member of
/// `b` moved by `ob`.  This is the observable meaning of every compound
/// collision query; the cached bounding boxes only accelerate it.
pub open spec fn frames_collide(a: Seq<RectModel>, b: Seq<RectModel>, oa: Vec2, ob: Vec2) -> bool {
    exists|i: int| 0 <= i < a.len() && hitbox_hits_frame(#[trigger] a[i], b, oa, ob)
}

/// Compound collision is symmetric: testing `a` against `b` equals
/// testing `b` against `a` with the offsets swapped accordingly.
pub proof fn lemma_frames_collide_symmetric(
    a: Seq<RectModel>,
    b: Seq<RectModel>,
    oa: Vec2,
    ob: Vec2,
)
    ensures
        frames_collide(a, b, oa, ob) == frames_collide(b, a, ob, oa),
{
    if frames_collide(a, b, oa, ob) {
        let i = choose|i: int| 0 <= i < a.len() && hitbox_hits_frame(#[trigger] a[i], b, oa, ob);
        let j = choose|j: int|
            0 <= j < b.len() && rects_overlap(translate(a[i], oa), translate(#[trigger] b[j], ob));
        assert(rects_overlap(translate(b[j], ob), translate(a[i], oa)));
        assert(hitbox_hits_frame(b[j], a, ob, oa));
        assert(frames_collide(b, a, ob, oa));
    }
    if frames_collide(b, a, ob, oa) {
        let j = choose|j: int| 0 <= j < b.len() && hitbox_hits_frame(#[trigger] b[j], a, ob, oa);
        let i = choose|i: int|
            0 <= i < a.len() && rects_overlap(translate(b[j], ob), translate(#[trigger] a[i], oa));
        assert(rects_overlap(translate(a[i], oa), translate(b[j], ob)));
        assert(hitbox_hits_frame(a[i], b, oa, ob));
        assert(frames_collide(a, b, oa, ob));
    }
}

impl Hitbox {
    /// True iff this hitbox, moved by `offset`, overlaps any member of
    /// the compound shape moved by `other_offset`.
    pub fn colliding_frame(&self, other: &HitboxFrame, offset: Vec2, other_offset: Vec2) -> (r:
        bool)
        requires
            rect_loose(self@),
            other.wf(),
            offset.wf(),
            other_offset.wf(),
        ensures
            r == hitbox_hits_frame(self@, other.members(), offset, other_offset),
    {
        let mut j: usize = 0;
        while j < other.hitboxes.len()
            invariant
                j <= other.members().len(),
                other.members().len() == other.hitboxes@.len(),
                rect_loose(self@),
                other.wf(),
                offset.wf(),
                other_offset.wf(),
                forall|k: int|
                    0 <= k < j ==> !rects_overlap(
                        translate(self@, offset),
                        translate(#[trigger] other.members()[k], other_offset),
                    ),
            decreases other.members().len() - j,
        {
            proof {
                assert(other.members()[j as int] == other.hitboxes@[j as int]@);
            }
            if self.colliding_single(&other.hitboxes[j], offset, other_offset) {
                proof {
                    assert(rects_overlap(
                        translate(self@, offset),
                        translate(other.members()[j as int], other_offset),
                    ));
                }
                return true;
            }
            j = j + 1;
        }
        proof {
            if hitbox_hits_frame(self@, other.members(), offset, other_offset) {
                let k = choose|k: int|
                    0 <= k < other.members().len() && rects_overlap(
                        translate(self@, offset),
                        translate(#[trigger] other.members()[k], other_offset),
                    );
                assert(false);
            }
        }
        false
    }
}

impl HitboxFrame {
    /// True iff any member of this frame, moved by `offset`, overlaps
    /// the single hitbox moved by `other_offset`.
    pub fn colliding_single(&self, other: &Hitbox, offset: Vec2, other_offset: Vec2) -> (r: bool)
        requires
            self.wf(),
            rect_loose(other@),
            offset.wf(),
            other_offset.wf(),
        ensures
            r == frames_collide(self.members(), seq![other@], offset, other_offset),
    {
        let mut i: usize = 0;
        while i < self.hitboxes.len()
            invariant
                i <= self.members().len(),
                self.members().len() == self.hitboxes@.len(),
                self.wf(),
                rect_loose(other@),
                offset.wf(),
                other_offset.wf(),
                forall|k: int|
                    0 <= k < i ==> !rects_overlap(
                        translate(#[trigger] self.members()[k], offset),
                        translate(other@, other_offset),
                    ),
            decreases self.members().len() - i,
        {
            proof {
                assert(self.members()[i as int] == self.hitboxes@[i as int]@);
            }
            if self.hitboxes[i].colliding_single(other, offset, other_offset) {
                proof {
                    assert(seq![other@][0] == other@);
                    assert(hitbox_hits_frame(
                        self.members()[i as int],
                        seq![other@],
                        offset,
                        other_offset,
                    ));
                }
                return true;
            }
            i = i + 1;
        }
        proof {
            if frames_collide(self.members(), seq![other@], offset, other_offset) {
                let k = choose|k: int|
                    0 <= k < self.members().len() && hitbox_hits_frame(
                        #[trigger] self.members()[k],
                        seq![other@],
                        offset,
                        other_offset,
                    );
                let j = choose|j: int|
                    0 <= j < 1 && rects_overlap(
                        translate(self.members()[k], offset),
                        translate(#[trigger] seq![other@][j], other_offset),
                    );
                assert(seq![other@][j] == other@);
                assert(false);
            }
        }
        false
    }

    /// True iff any member pair of the two frames overlaps after the
    /// given offsets.  The cached bounding boxes gate the pairwise
    /// tests but never change the result.
    pub fn colliding_frame(&self, compound: &HitboxFrame, offset: Vec2, other_offset: Vec2) -> (r:
        bool)
        requires
            self.wf(),
            compound.wf(),
            offset.wf(),
            other_offset.wf(),
        ensures
            r == frames_collide(self.members(), compound.members(), offset, other_offset),
    {
        proof {
            lemma_union_loose(self.members());
            lemma_union_loose(compound.members());
        }
        if !overlap_after_translate(self.bounding_box, offset, compound.bounding_box, other_offset)
        {
            proof {
                lemma_union_contains(self.members());
                lemma_union_contains(compound.members());
                if frames_collide(self.members(), compound.members(), offset, other_offset) {
                    let i = choose|i: int|
                        0 <= i < self.members().len() && hitbox_hits_frame(
                            #[trigger] self.members()[i],
                            compound.members(),
                            offset,
                            other_offset,
                        );
                    let j = choose|j: int|
                        0 <= j < compound.members().len() && rects_overlap(
                            translate(self.members()[i], offset),
                            translate(#[trigger] compound.members()[j], other_offset),
                        );
                    crate::geometry::lemma_overlap_monotone(
                        translate(self.bb(), offset),
                        translate(compound.bb(), other_offset),
                        translate(self.members()[i], offset),
                        translate(compound.members()[j], other_offset),
                    );
                    assert(false);
                }
            }
            return false;
        }
        let mut i: usize = 0;
        while i < self.hitboxes.len()
            invariant
                i <= self.members().len(),
                self.members().len() == self.hitboxes@.len(),
                self.wf(),
                compound.wf(),
                offset.wf(),
                other_offset.wf(),
                rect_loose(compound.bb()),
                forall|k: int|
                    0 <= k < i ==> !hitbox_hits_frame(
                        #[trigger] self.members()[k],
                        compound.members(),
                        offset,
                        other_offset,
                    ),
            decreases self.members().len() - i,
        {
            proof {
                assert(self.members()[i as int] == self.hitboxes@[i as int]@);
            }
            let hits = if overlap_after_translate(
                self.hitboxes[i].rect(),
                offset,
                compound.bounding_box,
                other_offset,
            ) {
                self.hitboxes[i].colliding_frame(compound, offset, other_offset)
            } else {
                proof {
                    lemma_union_contains(compound.members());
                    if hitbox_hits_frame(
                        self.members()[i as int],
                        compound.members(),
                        offset,
                        other_offset,
                    ) {
                        let j = choose|j: int|
                            0 <= j < compound.members().len() && rects_overlap(
                                translate(self.members()[i as int], offset),
                                translate(#[trigger] compound.members()[j], other_offset),
                            );
                        crate::geometry::lemma_overlap_monotone(
                            translate(self.members()[i as int], offset),
                            translate(compound.bb(), other_offset),
                            translate(self.members()[i as int], offset),
                            translate(compound.members()[j], other_offset),
                        );
                        assert(false);
                    }
                }
                false
            };
            if hits {
                return true;
            }
            i = i + 1;
        }
        false
    }
}

/// `dst` holds `src`'s members rotated clockwise from `src`'s facing to
/// the facing `d`, and is tagged with `d`.
pub open spec fn frame_rotated(src: HitboxFrame, dst: HitboxFrame, d: Direction) -> bool {
    dst.dir() == d && dst.members().len() == src.members().len() && forall|j: int|
        0 <= j < src.members().len() ==> #[trigger] dst.members()[j] == rotate_rect_n(
            src.members()[j],
            src.dir().spec_rotations_to(d) as nat,
        )
}

impl HitboxFrame {
    /// A new frame with every member rotated by the clockwise-step
    /// delta from this frame's facing to the target facing, and the
    /// bounding box recomputed from the rotated members.
    pub fn as_direction(&self, direction: Direction) -> (f: HitboxFrame)
        requires
            self.wf(),
            self.members_authored(),
        ensures
            frame_rotated(*self, f, direction),
            f.wf(),
            f.members_authored(),
    {
        let rot = self.direction.rotations_to(direction);
        let ghost n = self.direction.spec_rotations_to(direction) as nat;
        let mut rotated: Vec<Hitbox> = Vec::new();
        let mut i: usize = 0;
        while i < self.hitboxes.len()
            invariant
                i <= self.members().len(),
                self.members().len() == self.hitboxes@.len(),
                self.wf(),
                self.members_authored(),
                rot as int == self.direction.spec_rotations_to(direction),
                n == self.direction.spec_rotations_to(direction) as nat,
                rotated@.len() == i,
                forall|k: int|
                    0 <= k < i ==> (#[trigger] rotated@[k])@ == rotate_rect_n(
                        self.members()[k],
                        n,
                    ) && rotated@[k].wf(),
            decreases self.members().len() - i,
        {
            proof {
                assert(self.members()[i as int] == self.hitboxes@[i as int]@);
            }
            let h = self.hitboxes[i].as_direction_centered(direction, rot as i32);
            rotated.push(h);
            i = i + 1;
        }
        proof {
            assert forall|k: int| 0 <= k < rotated@.len() implies rect_loose(
                #[trigger] rotated@[k]@,
            ) by {
                assert(rotated@[k].wf());
            }
        }
        let f = HitboxFrame::new(rotated, direction);
        proof {
            assert(self.direction == self.dir());
            assert forall|j: int| 0 <= j < self.members().len() implies #[trigger] f.members()[j]
                == rotate_rect_n(self.members()[j], n) by {
                assert(f.members()[j] == rotated@[j]@);
            }
            assert forall|j: int| 0 <= j < f.members().len() implies rect_wf(
                #[trigger] f.members()[j],
            ) by {
                assert(f.members()[j] == rotated@[j]@);
                assert(rotated@[j].wf());
            }
        }
        f
    }
}

/// `dst` holds `src`'s keyframes rotated to the facing `d`, in order.
pub open spec fn string_rotated(src: HitboxFrameString, dst: HitboxFrameString, d: Direction) -> bool {
    dst.frames().len() == src.frames().len() && forall|i: int|
        0 <= i < src.frames().len() ==> frame_rotated(
            src.frames()[i],
            #[trigger] dst.frames()[i],
            d,
        )
}

/// An ordered sequence of compound frames: the discrete keyframes of an
/// attack string or animated shape.
#[derive(Clone, Debug)]
pub struct HitboxFrameString {
    frames: Vec<HitboxFrame>,
}

/// The two frames carry the same members, facing and bounding box.
pub open spec fn frame_equiv(a: HitboxFrame, b: HitboxFrame) -> bool {
    a.members() == b.members() && a.dir() == b.dir() && a.bb() == b.bb()
}

impl HitboxFrameString {
    /// The keyframes, in order.
    pub closed spec fn frames(&self) -> Seq<HitboxFrame> {
        self.frames@
    }

    /// Every keyframe is well formed.
    pub open spec fn wf(&self) -> bool {
        forall|i: int| 0 <= i < self.frames().len() ==> (#[trigger] self.frames()[i]).wf()
    }

    /// Every keyframe's members lie in the authored square, so the
    /// whole string may still be rotated.
    pub open spec fn members_authored(&self) -> bool {
        forall|i: int|
            0 <= i < self.frames().len() ==> (#[trigger] self.frames()[i]).members_authored()
    }

    pub fn new(frames: Vec<HitboxFrame>) -> (s: HitboxFrameString)
        ensures
            s.frames() == frames@,
    {
        HitboxFrameString { frames }
    }

    /// A string holding copies of the given keyframes.
    pub fn from_frames(frames: &Vec<HitboxFrame>) -> (s: HitboxFrameString)
        requires
            forall|i: int| 0 <= i < frames@.len() ==> (#[trigger] frames@[i]).wf(),
        ensures
            s.frames().len() == frames@.len(),
            forall|i: int|
                0 <= i < frames@.len() ==> frame_equiv(#[trigger] s.frames()[i], frames@[i]),
            s.wf(),
    {
        let mut copies: Vec<HitboxFrame> = Vec::new();
        let mut i: usize = 0;
        while i < frames.len()
            invariant
                i <= frames@.len(),
                forall|k: int| 0 <= k < frames@.len() ==> (#[trigger] frames@[k]).wf(),
                copies@.len() == i,
                forall|k: int|
                    0 <= k < i ==> frame_equiv(#[trigger] copies@[k], frames@[k]) && copies@[k].wf(),
            decreases frames@.len() - i,
        {
            let members = copy_hitboxes(&frames[i].hitboxes);
            proof {
                assert(members@.map_values(|h: Hitbox| h@) =~= frames@[i as int].members());
            }
            let copy = HitboxFrame {
                hitboxes: members,
                direction: frames[i].direction,
                bounding_box: frames[i].bounding_box,
            };
            copies.push(copy);
            i = i + 1;
        }
        HitboxFrameString { frames: copies }
    }

    /// A string built from per-keyframe member lists, all authored for
    /// the given facing.
    pub fn from_hitboxes(zero: &Vec<Vec<Hitbox>>, direction: Direction) -> (s: HitboxFrameString)
        requires
            forall|i: int, j: int|
                0 <= i < zero@.len() && 0 <= j < zero@[i]@.len() ==> rect_loose(
                    (#[trigger] zero@[i]@[j])@,
                ),
        ensures
            s.frames().len() == zero@.len(),
            forall|i: int|
                0 <= i < zero@.len() ==> (#[trigger] s.frames()[i]).dir() == direction && s.frames()[
                    i
                ].members() == zero@[i]@.map_values(|h: Hitbox| h@),
            s.wf(),
    {
        let mut built: Vec<HitboxFrame> = Vec::new();
        let mut i: usize = 0;
        while i < zero.len()
            invariant
                i <= zero@.len(),
                forall|k: int, j: int|
                    0 <= k < zero@.len() && 0 <= j < zero@[k]@.len() ==> rect_loose(
                        (#[trigger] zero@[k]@[j])@,
                    ),
                built@.len() == i,
                forall|k: int|
                    0 <= k < i ==> (#[trigger] built@[k]).dir() == direction && built@[k].members()
                        == zero@[k]@.map_values(|h: Hitbox| h@) && built@[k].wf(),
            decreases zero@.len() - i,
        {
            let members = copy_hitboxes(&zero[i]);
            let frame = HitboxFrame::new(members, direction);
            built.push(frame);
            i = i + 1;
        }
        HitboxFrameString { frames: built }
    }

    /// The number of keyframes.
    pub fn len(&self) -> (n: usize)
        ensures
            n == self.frames().len(),
    {
        self.frames.len()
    }

    /// The keyframe at the given position.
    pub fn frame_at(&self, i: usize) -> (f: &HitboxFrame)
        requires
            i < self.frames().len(),
        ensures
            *f == self.frames()[i as int],
    {
        &self.frames[i]
    }

    /// The whole string rotated to the given facing, keyframe by
    /// keyframe.
    pub fn as_direction(&self, direction: Direction) -> (s: HitboxFrameString)
        requires
            self.wf(),
            self.members_authored(),
        ensures
            s.frames().len() == self.frames().len(),
            forall|i: int|
                0 <= i < self.frames().len() ==> frame_rotated(
                    self.frames()[i],
                    #[trigger] s.frames()[i],
                    direction,
                ),
            s.wf(),
            s.members_authored(),
    {
        let mut rotated: Vec<HitboxFrame> = Vec::new();
        let mut i: usize = 0;
        while i < self.frames.len()
            invariant
                i <= self.frames().len(),
                self.frames().len() == self.frames@.len(),
                self.wf(),
                self.members_authored(),
                rotated@.len() == i,
                forall|k: int|
                    0 <= k < i ==> frame_rotated(self.frames()[k], #[trigger] rotated@[k], direction)
                        && rotated@[k].wf() && rotated@[k].members_authored(),
            decreases self.frames().len() - i,
        {
            let f = self.frames[i].as_direction(direction);
            rotated.push(f);
            i = i + 1;
        }
        HitboxFrameString { frames: rotated }
    }
}

/// A borrowed handle to "some kind of shape": a single hitbox, a
/// compound frame, or one indexed keyframe of a string.  Collision
/// callers never need to know which representation the other side uses.
#[derive(Clone, Copy)]
pub enum HitboxType<'a> {
    /// A singular hitbox.
    Singular(&'a Hitbox),
    /// A compound of hitboxes operating as one shape.
    Compound(&'a HitboxFrame),
    /// A keyframed string together with the index of the active frame.
    String(&'a HitboxFrameString, usize),
}

/// The member rectangles the handle currently stands for.
pub open spec fn shape_members(h: HitboxType) -> Seq<RectModel> {
    match h {
        HitboxType::Singular(hb) => seq![hb@],
        HitboxType::Compound(f) => f.members(),
        HitboxType::String(s, idx) => s.frames()[idx as int].members(),
    }
}

/// The handle refers to well-formed geometry, and an indexed string is
/// indexed within bounds.
pub open spec fn shape_wf(h: HitboxType) -> bool {
    match h {
        HitboxType::Singular(hb) => rect_loose(hb@),
        HitboxType::Compound(f) => f.wf(),
        HitboxType::String(s, idx) => s.wf() && (idx as int) < s.frames().len(),
    }
}

/// A one-member frame collides with something iff its only member does.
proof fn lemma_single_frame(a: RectModel, b: Seq<RectModel>, oa: Vec2, ob: Vec2)
    ensures
        frames_collide(seq![a], b, oa, ob) == hitbox_hits_frame(a, b, oa, ob),
{
    if hitbox_hits_frame(a, b, oa, ob) {
        assert(seq![a][0] == a);
        assert(frames_collide(seq![a], b, oa, ob));
    }
    if frames_collide(seq![a], b, oa, ob) {
        let i = choose|i: int| 0 <= i < 1 && hitbox_hits_frame(#[trigger] seq![a][i], b, oa, ob);
        assert(seq![a][i] == a);
    }
}

/// Colliding two single hitboxes is exactly the strict rectangle
/// overlap test.
proof fn lemma_single_single(a: RectModel, b: RectModel, oa: Vec2, ob: Vec2)
    ensures
        frames_collide(seq![a], seq![b], oa, ob) == rects_overlap(translate(a, oa), translate(b, ob)),
{
    lemma_single_frame(a, seq![b], oa, ob);
    if rects_overlap(translate(a, oa), translate(b, ob)) {
        assert(seq![b][0] == b);
        assert(hitbox_hits_frame(a, seq![b], oa, ob));
    }
    if hitbox_hits_frame(a, seq![b], oa, ob) {
        let j = choose|j: int|
            0 <= j < 1 && rects_overlap(translate(a, oa), translate(#[trigger] seq![b][j], ob));
        assert(seq![b][j] == b);
    }
}

impl Hitbox {
    /// Collision of this hitbox against any kind of shape handle.
    pub fn colliding(&self, other: HitboxType, offset: Vec2, other_offset: Vec2) -> (r: bool)
        requires
            rect_loose(self@),
            shape_wf(other),
            offset.wf(),
            other_offset.wf(),
        ensures
            r == frames_collide(seq![self@], shape_members(other), offset, other_offset),
    {
        match other {
            HitboxType::Singular(single) => {
                proof {
                    lemma_single_single(self@, single@, offset, other_offset);
                }
                self.colliding_single(single, offset, other_offset)
            },
            HitboxType::Compound(compound) => {
                proof {
                    lemma_single_frame(self@, compound.members(), offset, other_offset);
                }
                self.colliding_frame(compound, offset, other_offset)
            },
            HitboxType::String(string, index) => {
                let frame = string.frame_at(index);
                proof {
                    lemma_single_frame(self@, frame.members(), offset, other_offset);
                }
                self.colliding_frame(frame, offset, other_offset)
            },
        }
    }
}

impl HitboxFrame {
    /// Collision of this compound shape against any kind of shape
    /// handle.
    pub fn colliding(&self, other: HitboxType, offset: Vec2, other_offset: Vec2) -> (r: bool)
        requires
            self.wf(),
            shape_wf(other),
            offset.wf(),
            other_offset.wf(),
        ensures
            r == frames_collide(self.members(), shape_members(other), offset, other_offset),
    {
        match other {
            HitboxType::Singular(single) => self.colliding_single(single, offset, other_offset),
            HitboxType::Compound(compound) => self.colliding_frame(
                compound,
                offset,
                other_offset,
            ),
            HitboxType::String(string, index) => self.colliding_frame(
                string.frame_at(index),
                offset,
                other_offset,
            ),
        }
    }
}

impl HitboxFrameString {
    /// Collision of the keyframe at `frame` against any kind of shape
    /// handle.  Indexing outside the string is a caller error and is
    /// excluded by contract.
    pub fn colliding(&self, frame: usize, other: HitboxType, offset: Vec2, other_offset: Vec2) -> (r:
        bool)
        requires
            self.wf(),
            frame < self.frames().len(),
            shape_wf(other),
            offset.wf(),
            other_offset.wf(),
        ensures
            r == frames_collide(
                self.frames()[frame as int].members(),
                shape_members(other),
                offset,
                other_offset,
            ),
    {
        self.frame_at(frame).colliding(other, offset, other_offset)
    }
}

impl HitboxType<'_> {
    /// Uniform collision dispatch: each side may independently be a
    /// single hitbox, a compound frame, or an indexed string keyframe.
    pub fn is_colliding(&self, other: HitboxType, offset: Vec2, other_offset: Vec2) -> (r: bool)
        requires
            shape_wf(*self),
            shape_wf(other),
            offset.wf(),
            other_offset.wf(),
        ensures
            r == frames_collide(shape_members(*self), shape_members(other), offset, other_offset),
    {
        match self {
            HitboxType::Singular(singular) => singular.colliding(other, offset, other_offset),
            HitboxType::Compound(compound) => compound.colliding(other, offset, other_offset),
            HitboxType::String(string, index) => string.colliding(
                *index,
                other,
                offset,
                other_offset,
            ),
        }
    }
}

/// An owning variant of [`HitboxType`], for callers that hold the shape
/// itself rather than a borrow.
pub enum OwnedHitboxType {
    /// A singular hitbox.
    Singular(Hitbox),
    /// A compound of hitboxes operating as one shape.
    Compound(HitboxFrame),
    /// A keyframed string together with the index of the active frame.
    String(HitboxFrameString, usize),
}

/// The member rectangles the owned handle stands for.
pub open spec fn owned_shape_members(o: OwnedHitboxType) -> Seq<RectModel> {
    match o {
        OwnedHitboxType::Singular(hb) => seq![hb@],
        OwnedHitboxType::Compound(f) => f.members(),
        OwnedHitboxType::String(s, idx) => s.frames()[idx as int].members(),
    }
}

/// The owned handle refers to well-formed geometry with a valid index.
pub open spec fn owned_shape_wf(o: OwnedHitboxType) -> bool {
    match o {
        OwnedHitboxType::Singular(hb) => rect_loose(hb@),
        OwnedHitboxType::Compound(f) => f.wf(),
        OwnedHitboxType::String(s, idx) => s.wf() && (idx as int) < s.frames().len(),
    }
}

impl OwnedHitboxType {
    /// Borrows the owned shape as a [`HitboxType`] handle.
    pub fn as_ref(&self) -> (h: HitboxType)
        ensures
            shape_members(h) == owned_shape_members(*self),
            shape_wf(h) == owned_shape_wf(*self),
    {
        match self {
            OwnedHitboxType::Singular(singular) => HitboxType::Singular(singular),
            OwnedHitboxType::Compound(compound) => HitboxType::Compound(compound),
            OwnedHitboxType::String(string, us) => HitboxType::String(string, *us),
        }
    }
}

} // verus!
