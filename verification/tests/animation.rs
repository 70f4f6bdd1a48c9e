use linklike::animation::HitboxAnimation;
use linklike::assets::StaticAssets;
use linklike::collision::{Hitbox, HitboxFrameString, HitboxType};
use linklike::geometry::Vec2;
use linklike::Direction;

fn keyframes(centers: &[(i64, i64)], size: i64) -> HitboxFrameString {
    let lists: Vec<Vec<Hitbox>> = centers
        .iter()
        .map(|&(x, y)| vec![Hitbox::point_size(Vec2::new(x, y), size)])
        .collect();
    HitboxFrameString::from_hitboxes(&lists, Direction::Down)
}

#[test]
fn one_shot_animation_deactivates_after_all_intervals() {
    let string = keyframes(&[(0, 0), (10, 0), (20, 0)], 4);
    let mut anim = HitboxAnimation::new(&string, vec![3, 2, 4]);
    anim.loop_animations(false);
    let mut boundary_calls = 0;
    for _ in 0..(3 + 2 + 4 + 1) {
        if anim.update_animation() {
            boundary_calls += 1;
        }
    }
    assert!(!anim.active());
    assert_eq!(boundary_calls, 1);
    let resting_interval = anim.current_interval();
    for _ in 0..5 {
        assert!(!anim.update_animation());
        assert_eq!(anim.current_interval(), resting_interval);
        assert!(!anim.active());
    }
}

#[test]
fn looping_animation_cycles_back_to_start() {
    let string = keyframes(&[(0, 0), (10, 0), (20, 0)], 4);
    let mut anim = HitboxAnimation::new(&string, vec![3, 2, 4]);
    let mut true_calls = Vec::new();
    for call in 1..=30 {
        if anim.update_animation() {
            true_calls.push(call);
            assert_eq!(anim.current_interval(), 0);
            assert_eq!(anim.frame_of_current_interval(), 3);
            assert!(anim.active());
        }
    }
    assert_eq!(true_calls, vec![10, 20, 30]);
}

#[test]
fn reset_restores_progress_and_activity() {
    let string = keyframes(&[(0, 0), (10, 0)], 4);
    let mut anim = HitboxAnimation::new(&string, vec![2, 2]);
    anim.loop_animations(false);
    for _ in 0..10 {
        anim.update_animation();
    }
    assert!(!anim.active());
    anim.reset();
    assert!(anim.active());
    assert_eq!(anim.current_interval(), 0);
    assert_eq!(anim.frame_of_current_interval(), 2);
}

#[test]
fn reset_current_interval_reloads_the_hold() {
    let string = keyframes(&[(0, 0), (10, 0), (20, 0)], 4);
    let mut anim = HitboxAnimation::new(&string, vec![3, 3, 3]);
    for _ in 0..4 {
        anim.update_animation();
    }
    assert_eq!(anim.current_interval(), 1);
    assert_eq!(anim.frame_of_current_interval(), 2);
    anim.reset_current_interval();
    assert_eq!(anim.current_interval(), 1);
    assert_eq!(anim.frame_of_current_interval(), 3);
}

#[test]
fn inactive_animation_ignores_updates() {
    let string = keyframes(&[(0, 0), (10, 0)], 4);
    let mut anim = HitboxAnimation::new(&string, vec![2, 2]);
    anim.set_active(false);
    assert!(!anim.update_animation());
    assert_eq!(anim.current_interval(), 0);
    assert_eq!(anim.frame_of_current_interval(), 2);
    anim.set_active(true);
    assert!(!anim.update_animation());
    assert_eq!(anim.current_interval(), 0);
    assert_eq!(anim.frame_of_current_interval(), 1);
}

#[test]
fn interpolated_shape_moves_between_keyframes() {
    let string = keyframes(&[(-50, 0), (0, 0), (100, 0)], 10);
    let mut anim = HitboxAnimation::new(&string, vec![5, 5, 5]);
    anim.loop_animations(false);
    // three ticks into the first keyframe's hold of five:
    // t = (5 - 2) / (5 + 1) = 1/2 toward keyframe 1
    for _ in 0..3 {
        anim.update_animation();
    }
    assert_eq!(anim.current_interval(), 0);
    assert_eq!(anim.frame_of_current_interval(), 2);
    let shape = anim.lerped();
    assert_eq!(shape.len(), 1);
    let r = shape.member_at(0).rect();
    assert_eq!((r.x, r.y, r.w, r.h), (-30, -5, 10, 10));
    // five more ticks: the boundary call advances to keyframe 1 and
    // counts as its first held tick, leaving t = 3/6 toward keyframe 2
    for _ in 0..5 {
        anim.update_animation();
    }
    assert_eq!(anim.current_interval(), 1);
    assert_eq!(anim.frame_of_current_interval(), 2);
    let r = anim.lerped().member_at(0).rect();
    assert_eq!((r.x, r.y, r.w, r.h), (45, -5, 10, 10));
}

#[test]
fn two_keyframe_scenario_interpolates_halfway() {
    // keyframe 0 centered at the origin, keyframe 1 centered at
    // (100, 0), both size 10, held five ticks each, one-shot
    let string = keyframes(&[(0, 0), (100, 0)], 10);
    let mut anim = HitboxAnimation::new(&string, vec![5, 5]);
    anim.loop_animations(false);
    for _ in 0..3 {
        anim.update_animation();
    }
    // t = (5 - (5 - 3)) / (5 + 1) = 1/2: the shape sits halfway,
    // centered at (50, 0)
    assert_eq!(anim.current_interval(), 0);
    assert_eq!(anim.frame_of_current_interval(), 2);
    let r = anim.lerped().member_at(0).rect();
    assert_eq!((r.x, r.y, r.w, r.h), (45, -5, 10, 10));
    // the remaining hold, the second keyframe's, and one final
    // boundary call finish the one-shot animation
    for _ in 0..8 {
        anim.update_animation();
    }
    assert!(!anim.active());
}

#[test]
fn current_and_next_frame_follow_the_interval_index() {
    let string = keyframes(&[(0, 0), (10, 0)], 4);
    let anim = HitboxAnimation::new(&string, vec![2, 2]);
    let cur = anim.current_frame(Direction::Down);
    let r = cur.member_at(0).rect();
    assert_eq!((r.x, r.y, r.w, r.h), (-2, -2, 4, 4));
    let next = anim.next_frame(Direction::Down).expect("a second keyframe follows");
    let rn = next.member_at(0).rect();
    assert_eq!((rn.x, rn.y, rn.w, rn.h), (8, -2, 4, 4));
}

#[test]
fn animation_direction_picks_the_rotated_table() {
    // one keyframe off to the right of the origin, authored Down
    let string = keyframes(&[(100, 0)], 10);
    let mut anim = HitboxAnimation::new(&string, vec![1]);
    anim.set_direction(Direction::Down);
    anim.update_animation();
    let down = anim.lerped().member_at(0).rect();
    assert_eq!((down.x, down.y), (95, -5));
    // turned to Up, the same keyframe sits mirrored through the origin
    anim.set_direction(Direction::Up);
    anim.update_animation();
    let up = anim.lerped().member_at(0).rect();
    assert_eq!((up.x, up.y), (-105, -5));
}

#[test]
fn lerped_shape_supports_collision_queries() {
    let string = keyframes(&[(0, 0), (100, 0)], 10);
    let mut anim = HitboxAnimation::new(&string, vec![5, 5]);
    anim.update_animation();
    // one tick in, t = 1/6: the shape sits at x = -5 + 100/6 = 11
    let target = Hitbox::point_size(Vec2::new(0, 0), 10);
    let shape = anim.lerped();
    assert!(shape.colliding(
        HitboxType::Singular(&target),
        Vec2::new(0, 0),
        Vec2::new(15, 0),
    ));
    assert!(!shape.colliding(
        HitboxType::Singular(&target),
        Vec2::new(0, 0),
        Vec2::new(300, 0),
    ));
}

#[test]
fn startup_tables_build_and_run() {
    let assets = StaticAssets::new();
    let mut wide_swing = assets.advanced_enemy.wide_swing;
    assert!(wide_swing.active());
    assert_eq!(wide_swing.current_interval(), 0);
    let mut boundaries = 0;
    for _ in 0..200 {
        if wide_swing.update_animation() {
            boundaries += 1;
        }
    }
    // the schedule holds 13 keyframes over 4+5+5+5+5+5+6+6+4+5+7+45+10
    // ticks plus one boundary call per keyframe transition
    assert!(boundaries >= 1);
    assert!(wide_swing.active());
    assert_eq!(assets.protag.inventory.sword.swing.len(), 4);
}
