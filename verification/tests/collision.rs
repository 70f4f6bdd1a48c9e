use linklike::collision::{Hitbox, HitboxFrame, HitboxFrameString, HitboxType, OwnedHitboxType};
use linklike::dominant_axis_direction;
use linklike::geometry::{Frac, Rect, Vec2};
use linklike::Direction;

fn hb(x: i64, y: i64, w: i64, h: i64) -> Hitbox {
    Hitbox::new(Rect::new(x, y, w, h))
}

fn at(x: i64, y: i64) -> Vec2 {
    Vec2::new(x, y)
}

#[test]
fn point_size_centers_a_square() {
    let h = Hitbox::point_size(Vec2::new(10, 20), 8);
    let r = h.rect();
    assert_eq!((r.x, r.y, r.w, r.h), (6, 16, 8, 8));
}

#[test]
fn default_hitbox_is_degenerate_at_origin() {
    let r = Hitbox::default().rect();
    assert_eq!((r.x, r.y, r.w, r.h), (0, 0, 0, 0));
}

#[test]
fn touching_edges_do_not_collide() {
    let a = hb(0, 0, 10, 10);
    let b = hb(10, 0, 10, 10);
    assert!(!a.colliding_single(&b, at(0, 0), at(0, 0)));
    let below = hb(0, 10, 10, 10);
    assert!(!a.colliding_single(&below, at(0, 0), at(0, 0)));
    let overlapping = hb(9, 0, 10, 10);
    assert!(a.colliding_single(&overlapping, at(0, 0), at(0, 0)));
}

#[test]
fn colliding_single_is_symmetric() {
    let a = hb(0, 0, 10, 10);
    let b = hb(5, -3, 4, 20);
    let oa = at(2, 1);
    let ob = at(-1, 0);
    assert_eq!(a.colliding_single(&b, oa, ob), b.colliding_single(&a, ob, oa));
    let far = hb(100, 100, 5, 5);
    assert_eq!(a.colliding_single(&far, oa, ob), far.colliding_single(&a, ob, oa));
}

#[test]
fn offsets_translate_the_rectangles() {
    let a = hb(0, 0, 10, 10);
    let b = hb(100, 0, 10, 10);
    assert!(!a.colliding_single(&b, at(0, 0), at(0, 0)));
    assert!(a.colliding_single(&b, at(95, 0), at(0, 0)));
    assert!(a.colliding_single(&b, at(0, 0), at(-95, 0)));
}

#[test]
fn degenerate_geometry_is_not_an_error() {
    // a zero-size hitbox acts as a point: strictly inside it overlaps,
    // on the boundary it does not, and two points never overlap
    let point = hb(5, 5, 0, 0);
    let b = hb(0, 0, 10, 10);
    assert!(point.colliding_single(&b, at(0, 0), at(0, 0)));
    let on_edge = hb(10, 5, 0, 0);
    assert!(!on_edge.colliding_single(&b, at(0, 0), at(0, 0)));
    assert!(!point.colliding_single(&point, at(0, 0), at(0, 0)));
}

#[test]
fn rotate_clockwise_swaps_extents() {
    let mut h = hb(1, 2, 10, 4);
    h.rotate_clockwise();
    let r = h.rect();
    assert_eq!((r.x, r.y, r.w, r.h), (2, -11, 4, 10));
}

#[test]
fn four_rotations_are_identity() {
    let h = hb(3, -7, 12, 5);
    let back = h.as_direction(Direction::Down, 3).as_direction(Direction::Down, 1);
    assert_eq!(back.rect(), h.rect());
    let back2 = h.as_direction(Direction::Up, 1).as_direction(Direction::Up, 3);
    assert_eq!(back2.rect(), h.rect());
    let full_turn = h.as_direction(Direction::Left, 4);
    assert_eq!(full_turn.rect(), h.rect());
}

#[test]
fn frame_bounding_box_is_union_of_members() {
    let frame = HitboxFrame::new(vec![hb(0, 0, 10, 10), hb(20, -5, 4, 4)], Direction::Right);
    let bb = frame.bounding_box();
    assert_eq!((bb.x, bb.y, bb.w, bb.h), (0, -5, 24, 15));
}

#[test]
fn bounding_box_of_empty_frame_is_degenerate() {
    let frame = HitboxFrame::new(Vec::new(), Direction::Right);
    let bb = frame.bounding_box();
    assert_eq!((bb.x, bb.y, bb.w, bb.h), (0, 0, 0, 0));
    let other = HitboxFrame::new(vec![hb(0, 0, 10, 10)], Direction::Right);
    assert!(!frame.colliding_frame(&other, at(0, 0), at(0, 0)));
}

#[test]
fn rotated_frame_recomputes_bounding_box() {
    let frame = HitboxFrame::new(vec![hb(0, 0, 10, 4)], Direction::Right);
    let down = frame.as_direction(Direction::Down);
    assert_eq!(down.direction(), Direction::Down);
    let r = down.member_at(0).rect();
    assert_eq!((r.x, r.y, r.w, r.h), (-4, 0, 4, 10));
    let bb = down.bounding_box();
    assert_eq!((bb.x, bb.y, bb.w, bb.h), (-4, 0, 4, 10));
}

#[test]
fn frame_collision_matches_pairwise_overlap() {
    let a = HitboxFrame::new(vec![hb(0, 0, 2, 2), hb(20, 20, 2, 2)], Direction::Right);
    let gap = HitboxFrame::new(vec![hb(10, 10, 2, 2)], Direction::Right);
    assert!(!a.colliding_frame(&gap, at(0, 0), at(0, 0)));
    let corner = HitboxFrame::new(vec![hb(19, 19, 4, 4)], Direction::Right);
    assert!(a.colliding_frame(&corner, at(0, 0), at(0, 0)));
    let far = HitboxFrame::new(vec![hb(100, 100, 2, 2)], Direction::Right);
    assert!(!a.colliding_frame(&far, at(0, 0), at(0, 0)));
}

#[test]
fn frame_collision_is_symmetric() {
    let a = HitboxFrame::new(vec![hb(0, 0, 6, 6), hb(12, 0, 6, 6)], Direction::Right);
    let b = HitboxFrame::new(vec![hb(5, 5, 6, 6)], Direction::Right);
    let oa = at(1, 1);
    let ob = at(0, 2);
    assert_eq!(a.colliding_frame(&b, oa, ob), b.colliding_frame(&a, ob, oa));
}

#[test]
fn lerp_interpolates_componentwise() {
    let a = hb(0, 0, 10, 10);
    let b = hb(100, 50, 30, 10);
    let mid = a.lerp(&b, Frac::new(1, 2));
    let r = mid.rect();
    assert_eq!((r.x, r.y, r.w, r.h), (50, 25, 20, 10));
}

#[test]
fn lerp_rounds_toward_negative_infinity() {
    let a = hb(0, 0, 0, 0);
    let b = hb(5, -5, 0, 0);
    let r = a.lerp(&b, Frac::new(1, 3)).rect();
    assert_eq!(r.x, 1);
    assert_eq!(r.y, -2);
}

#[test]
fn twine_lerp_endpoints() {
    let a = hb(0, 0, 10, 10);
    let b = hb(100, 40, 30, 50);
    let start = a.twine_lerp(&b, Frac::zero(), Frac::one());
    assert_eq!(start.rect(), a.rect());
    let end = a.twine_lerp(&b, Frac::one(), Frac::one());
    assert_eq!(end.rect(), b.rect());
    let pinned = a.twine_lerp(&b, Frac::one(), Frac::zero());
    let r = pinned.rect();
    assert_eq!((r.x, r.y), (0, 0));
    assert_eq!((r.w, r.h), (30, 50));
}

#[test]
fn twine_halves_the_travelled_distance() {
    let a = hb(0, 0, 10, 10);
    let b = hb(100, 0, 10, 10);
    let halfway = a.twine_lerp(&b, Frac::one(), Frac::new(1, 2));
    let r = halfway.rect();
    assert_eq!((r.x, r.y, r.w, r.h), (50, 0, 10, 10));
}

#[test]
fn shape_handles_dispatch_uniformly() {
    let single = hb(0, 0, 10, 10);
    let frame = HitboxFrame::new(vec![hb(5, 5, 10, 10)], Direction::Right);
    let string = HitboxFrameString::new(vec![
        HitboxFrame::new(vec![hb(100, 100, 5, 5)], Direction::Right),
        HitboxFrame::new(vec![hb(2, 2, 5, 5)], Direction::Right),
    ]);
    let o = at(0, 0);
    let s = HitboxType::Singular(&single);
    assert!(s.is_colliding(HitboxType::Compound(&frame), o, o));
    assert!(!s.is_colliding(HitboxType::String(&string, 0), o, o));
    assert!(s.is_colliding(HitboxType::String(&string, 1), o, o));
    assert!(HitboxType::Compound(&frame).is_colliding(HitboxType::String(&string, 1), o, o));
    assert!(string.colliding(1, HitboxType::Singular(&single), o, o));
    assert!(!string.colliding(0, HitboxType::Singular(&single), o, o));
    assert!(single.colliding(HitboxType::Compound(&frame), o, o));
    assert!(frame.colliding(HitboxType::Singular(&single), o, o));
}

#[test]
fn owned_shapes_borrow_as_handles() {
    let other = hb(1, 1, 1, 1);
    let owned = OwnedHitboxType::Singular(hb(0, 0, 10, 10));
    assert!(owned.as_ref().is_colliding(HitboxType::Singular(&other), at(0, 0), at(0, 0)));
    let owned_string = OwnedHitboxType::String(
        HitboxFrameString::new(vec![HitboxFrame::new(vec![hb(0, 0, 4, 4)], Direction::Right)]),
        0,
    );
    assert!(owned_string.as_ref().is_colliding(HitboxType::Singular(&other), at(0, 0), at(0, 0)));
    let owned_frame = OwnedHitboxType::Compound(HitboxFrame::new(
        vec![hb(50, 50, 4, 4)],
        Direction::Right,
    ));
    assert!(!owned_frame.as_ref().is_colliding(HitboxType::Singular(&other), at(0, 0), at(0, 0)));
}

#[test]
fn string_rotation_rotates_every_keyframe() {
    let lists = vec![vec![hb(1, 2, 3, 4)], vec![hb(5, 6, 7, 8)]];
    let string = HitboxFrameString::from_hitboxes(&lists, Direction::Right);
    let up = string.as_direction(Direction::Up);
    assert_eq!(up.len(), 2);
    let r0 = up.frame_at(0).member_at(0).rect();
    assert_eq!((r0.x, r0.y, r0.w, r0.h), (2, -4, 4, 3));
    let r1 = up.frame_at(1).member_at(0).rect();
    assert_eq!((r1.x, r1.y, r1.w, r1.h), (6, -12, 8, 7));
}

#[test]
fn from_frames_copies_keyframes() {
    let frames = vec![
        HitboxFrame::new(vec![hb(0, 0, 2, 2)], Direction::Right),
        HitboxFrame::new(vec![hb(4, 4, 2, 2)], Direction::Right),
    ];
    let string = HitboxFrameString::from_frames(&frames);
    assert_eq!(string.len(), 2);
    let r = string.frame_at(1).member_at(0).rect();
    assert_eq!((r.x, r.y, r.w, r.h), (4, 4, 2, 2));
}

#[test]
fn directional_constructors_tag_the_facing() {
    let right = HitboxFrame::right(vec![hb(0, 0, 2, 2)]);
    assert_eq!(right.direction(), Direction::Right);
    let down = HitboxFrame::down(vec![hb(0, 0, 2, 2)]);
    assert_eq!(down.direction(), Direction::Down);
    let up = HitboxFrame::up(Vec::new());
    assert_eq!(up.direction(), Direction::Up);
    let left = HitboxFrame::left(Vec::new());
    assert_eq!(left.direction(), Direction::Left);
}

#[test]
fn dominant_axis_picks_the_nearest_facing() {
    assert_eq!(dominant_axis_direction(Vec2::new(4, 3)), Direction::Right);
    assert_eq!(dominant_axis_direction(Vec2::new(3, 4)), Direction::Down);
    assert_eq!(dominant_axis_direction(Vec2::new(3, -4)), Direction::Up);
    assert_eq!(dominant_axis_direction(Vec2::new(-4, 3)), Direction::Left);
    assert_eq!(dominant_axis_direction(Vec2::new(-3, -4)), Direction::Up);
    // diagonal ties fall rightward, then upward, then leftward
    assert_eq!(dominant_axis_direction(Vec2::new(5, 5)), Direction::Right);
    assert_eq!(dominant_axis_direction(Vec2::new(-5, -5)), Direction::Up);
    assert_eq!(dominant_axis_direction(Vec2::new(-5, 5)), Direction::Left);
    assert_eq!(dominant_axis_direction(Vec2::new(0, 0)), Direction::Right);
}

#[test]
fn direction_ordinals_and_rotation_counts() {
    assert_eq!(Direction::Right.ordinal(), 0);
    assert_eq!(Direction::Up.ordinal(), 1);
    assert_eq!(Direction::Left.ordinal(), 2);
    assert_eq!(Direction::Down.ordinal(), 3);
    assert_eq!(Direction::Right.rotations_to(Direction::Down), 3);
    assert_eq!(Direction::Down.rotations_to(Direction::Right), 1);
    assert_eq!(Direction::Left.rotations_to(Direction::Left), 0);
    assert_eq!(Direction::Up.to_vec(), Vec2::new(0, -1));
    assert_eq!(Direction::Down.to_vec(), Vec2::new(0, 1));
}
