use linklike::assets::{ProtagData, StaticAssets};
use linklike::collision::{Hitbox, HitboxType};
use linklike::geometry::Vec2;
use linklike::npc::EnemyStats;
use linklike::protag::{
    get_direction, get_input_axis, ItemType, Protag, ProtagController, ProtagItem, Sword,
    SwordState,
};
use linklike::Direction;

#[test]
fn controller_starts_free_and_unhurt() {
    let controller = ProtagController::new();
    assert!(controller.can_move);
    assert!(controller.can_turn);
    assert!(!controller.hurt);
}

#[test]
fn facing_follows_input_with_horizontal_priority() {
    assert_eq!(get_direction(Vec2::new(1, 0), Direction::Down), Direction::Right);
    assert_eq!(get_direction(Vec2::new(-1, 1), Direction::Down), Direction::Left);
    assert_eq!(get_direction(Vec2::new(0, 1), Direction::Up), Direction::Down);
    assert_eq!(get_direction(Vec2::new(0, -1), Direction::Down), Direction::Up);
    assert_eq!(get_direction(Vec2::new(0, 0), Direction::Left), Direction::Left);
}

#[test]
fn sword_swings_through_its_keyframes_and_ends() {
    let data = ProtagData::new();
    let mut sword = Sword::new(data.inventory.sword.swing);
    assert_eq!(sword.state, SwordState::Inactive);
    sword.update(false, Direction::Right);
    assert_eq!(sword.state, SwordState::Inactive);
    sword.update(true, Direction::Right);
    assert_eq!(sword.state, SwordState::Active { frame: 0, direction: Direction::Right });
    for expected in 1..7usize {
        sword.update(false, Direction::Down);
        assert_eq!(
            sword.state,
            SwordState::Active { frame: expected, direction: Direction::Right },
        );
    }
    sword.update(false, Direction::Down);
    assert_eq!(sword.state, SwordState::Inactive);
}

#[test]
fn active_sword_locks_movement() {
    let data = ProtagData::new();
    let mut sword = Sword::new(data.inventory.sword.swing);
    assert!(!sword.active());
    assert!(sword.can_move());
    assert!(sword.can_turn());
    sword.update(true, Direction::Up);
    assert!(sword.active());
    assert!(!sword.can_move());
    assert!(!sword.can_turn());
}

#[test]
fn enemy_stats_respect_invulnerability_frames() {
    let mut stats = EnemyStats { health: 20, damage: 7, iframes: 0 };
    assert!(stats.on_hit(5));
    assert_eq!(stats.health, 15);
    assert_eq!(stats.iframes, 30);
    assert!(!stats.on_hit(5));
    assert_eq!(stats.health, 15);
    for _ in 0..30 {
        stats.tick_iframes();
    }
    assert_eq!(stats.iframes, 0);
    assert!(stats.on_hit(5));
    assert_eq!(stats.health, 10);
}

#[test]
fn protagonist_spawns_facing_down_with_sword_selected() {
    let protag = Protag::new(ProtagData::new());
    assert_eq!(protag.position, Vec2::new(500, 500));
    assert_eq!(protag.scale, Vec2::new(80, 80));
    assert_eq!(protag.direction, Direction::Down);
    assert_eq!(protag.inventory.current_item, ItemType::Sword);
    assert_eq!(protag.inventory.sword.state, SwordState::Inactive);
    let r = protag.hurtbox.rect();
    assert_eq!((r.x, r.y, r.w, r.h), (-40, -40, 80, 80));
}

#[test]
fn item_type_and_sword_state_default_sensibly() {
    assert_eq!(ItemType::default(), ItemType::NoItem);
    assert_eq!(SwordState::default(), SwordState::Inactive);
}

#[test]
fn input_axis_sums_pressed_keys() {
    assert_eq!(get_input_axis(false, true, false, false), Vec2::new(1, 0));
    assert_eq!(get_input_axis(true, true, true, false), Vec2::new(0, -1));
    assert_eq!(get_input_axis(false, false, false, false), Vec2::new(0, 0));
    assert_eq!(get_input_axis(true, false, false, true), Vec2::new(-1, 1));
}

#[test]
fn enemy_contact_sets_the_hurt_flag() {
    let mut protag = Protag::new(ProtagData::new());
    let enemy_hurtbox = Hitbox::point_size(Vec2::new(0, 0), 30);
    let near = Vec2::new(protag.position.x + 20, protag.position.y);
    assert!(protag.handle_enemy_collision(HitboxType::Singular(&enemy_hurtbox), near));
    assert!(protag.controller.hurt);
    let far = Vec2::new(protag.position.x + 500, protag.position.y);
    assert!(!protag.handle_enemy_collision(HitboxType::Singular(&enemy_hurtbox), far));
    assert!(!protag.controller.hurt);
}

#[test]
fn sword_swing_hits_an_enemy_in_range() {
    let assets = StaticAssets::new();
    let swing = &assets.protag.inventory.sword.swing;
    let enemy_hurtbox = Hitbox::point_size(Vec2::new(0, 0), 30);
    let protag_pos = Vec2::new(100, 100);
    let right = &swing[Direction::Right.ordinal()];
    // keyframe 4 of the Right-facing swing sits 80 units to the right
    // of the wielder
    let enemy_near = Vec2::new(180, 100);
    assert!(right.colliding(4, HitboxType::Singular(&enemy_hurtbox), protag_pos, enemy_near));
    let enemy_far = Vec2::new(400, 400);
    assert!(!right.colliding(4, HitboxType::Singular(&enemy_hurtbox), protag_pos, enemy_far));
}

#[test]
fn directional_swings_aim_where_the_protagonist_faces() {
    let assets = StaticAssets::new();
    let swing = &assets.protag.inventory.sword.swing;
    let enemy_hurtbox = Hitbox::point_size(Vec2::new(0, 0), 30);
    let protag_pos = Vec2::new(100, 100);
    // the same keyframe rotated Down points below the wielder
    let down = &swing[Direction::Down.ordinal()];
    let enemy_below = Vec2::new(100, 180);
    assert!(down.colliding(4, HitboxType::Singular(&enemy_hurtbox), protag_pos, enemy_below));
    let enemy_above = Vec2::new(100, 20);
    assert!(!down.colliding(4, HitboxType::Singular(&enemy_hurtbox), protag_pos, enemy_above));
}
