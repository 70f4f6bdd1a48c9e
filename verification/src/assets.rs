//! Keyframe tables built once at startup: the protagonist's sword
//! swing and the advanced enemy's wide-swing animation.

use crate::animation::HitboxAnimation;
use crate::collision::{frame_rotated, Hitbox, HitboxFrameString};
use crate::geometry::{rotate_rect_n, RectModel, Vec2};
use crate::Direction;
use vstd::prelude::*;

verus! {

/// The authored Right-facing sword-swing keyframe rectangles, in
/// keyframe order: the blade sweeps from below the wielder up and
/// around to its resting place.
pub open spec fn swing_rect(i: int) -> RectModel {
    if i == 0 {
        RectModel { x: -20, y: 60, w: 40, h: 40 }
    } else if i == 1 {
        RectModel { x: 25, y: 40, w: 40, h: 40 }
    } else if i == 2 {
        RectModel { x: 45, y: 20, w: 40, h: 40 }
    } else if i == 3 {
        RectModel { x: 60, y: 0, w: 40, h: 40 }
    } else if i == 4 {
        RectModel { x: 60, y: -20, w: 40, h: 40 }
    } else if i == 5 {
        RectModel { x: 60, y: -40, w: 40, h: 40 }
    } else {
        RectModel { x: -20, y: -20, w: 40, h: 40 }
    }
}

/// The protagonist's startup data.
pub struct ProtagData {
    pub inventory: InventoryData,
    pub start_pos: Vec2,
}

/// The inventory's startup data.
pub struct InventoryData {
    pub sword: SwordData,
}

/// The sword's startup data: one swing string per facing.
pub struct SwordData {
    pub swing: [HitboxFrameString; 4],
}

/// A one-element hitbox list.
fn single(h: Hitbox) -> (v: Vec<Hitbox>)
    ensures
        v@.len() == 1,
        v@[0] == h,
{
    let mut v: Vec<Hitbox> = Vec::new();
    v.push(h);
    v
}

impl ProtagData {
    /// Builds the Right-authored sword-swing keyframes and derives the
    /// four directional variants.
    pub fn new() -> (d: ProtagData)
        ensures
            forall|k: int| 0 <= k < 4 ==> (#[trigger] d.inventory.sword.swing@[k]).wf(),
            forall|k: int| 0 <= k < 4 ==> d.inventory.sword.swing@[k].frames().len() == 7,
            forall|k: int, i: int|
                0 <= k < 4 && 0 <= i < 7 ==> (#[trigger] d.inventory.sword.swing@[k].frames()[
                    i
                ]).members() == seq![rotate_rect_n(swing_rect(i), k as nat)],
            d.start_pos == (Vec2 { x: 500, y: 500 }),
    {
        let mut zero: Vec<Vec<Hitbox>> = Vec::new();
        zero.push(single(Hitbox::point_size(Vec2::new(0, 80), 40)));
        zero.push(single(Hitbox::point_size(Vec2::new(45, 60), 40)));
        zero.push(single(Hitbox::point_size(Vec2::new(65, 40), 40)));
        zero.push(single(Hitbox::point_size(Vec2::new(80, 20), 40)));
        zero.push(single(Hitbox::point_size(Vec2::new(80, 0), 40)));
        zero.push(single(Hitbox::point_size(Vec2::new(80, -20), 40)));
        zero.push(single(Hitbox::point_size(Vec2::new(0, 0), 40)));
        proof {
            assert(forall|i: int, j: int|
                0 <= i < zero@.len() && 0 <= j < zero@[i]@.len() ==> (#[trigger] zero@[i]@[j]).wf());
        }
        let base = HitboxFrameString::from_hitboxes(&zero, Direction::Right);
        proof {
            assert forall|i: int| 0 <= i < base.frames().len() implies (#[trigger] base.frames()[
                i
            ]).members_authored() by {
                assert forall|j: int|
                    0 <= j < base.frames()[i].members().len() implies crate::geometry::rect_wf(
                    #[trigger] base.frames()[i].members()[j],
                ) by {
                    assert(base.frames()[i].members()[j] == zero@[i]@[j]@);
                }
            }
        }
        proof {
            assert forall|i: int| 0 <= i < 7 implies (#[trigger] base.frames()[i]).members()
                =~= seq![swing_rect(i)] by {
                assert(base.frames()[i].members().len() == zero@[i]@.len());
                assert(base.frames()[i].members()[0] == zero@[i]@.map_values(|h: Hitbox| h@)[0]);
            }
        }
        let swing = [
            base.as_direction(Direction::Right),
            base.as_direction(Direction::Up),
            base.as_direction(Direction::Left),
            base.as_direction(Direction::Down),
        ];
        proof {
            assert forall|k: int, i: int|
                0 <= k < 4 && 0 <= i < 7 implies (#[trigger] swing@[k].frames()[i]).members()
                =~= seq![rotate_rect_n(swing_rect(i), k as nat)] by {
                if k == 0 {
                    assert(frame_rotated(base.frames()[i], swing@[0].frames()[i], Direction::Right));
                } else if k == 1 {
                    assert(frame_rotated(base.frames()[i], swing@[1].frames()[i], Direction::Up));
                } else if k == 2 {
                    assert(frame_rotated(base.frames()[i], swing@[2].frames()[i], Direction::Left));
                } else {
                    assert(frame_rotated(base.frames()[i], swing@[3].frames()[i], Direction::Down));
                }
                assert(base.frames()[i].members()[0] == swing_rect(i));
            }
        }
        ProtagData {
            inventory: InventoryData { sword: SwordData { swing } },
            start_pos: Vec2::new(500, 500),
        }
    }
}

/// The advanced enemy's startup data.
pub struct AdvancedEnemyData {
    pub wide_swing: HitboxAnimation,
}

/// The authored Down-facing wide-swing keyframe rectangles, in
/// keyframe order: the blow circles the enemy and ends in two
/// zero-size resting keyframes.
pub open spec fn wide_swing_rect(i: int) -> RectModel {
    if i == 0 {
        RectModel { x: 30, y: 30, w: 40, h: 40 }
    } else if i == 1 {
        RectModel { x: 35, y: -40, w: 40, h: 40 }
    } else if i == 2 {
        RectModel { x: -100, y: -20, w: 40, h: 40 }
    } else if i == 3 {
        RectModel { x: -20, y: 80, w: 40, h: 40 }
    } else if i == 4 {
        RectModel { x: 130, y: 55, w: 40, h: 40 }
    } else if i == 5 {
        RectModel { x: 135, y: -180, w: 60, h: 60 }
    } else if i == 6 {
        RectModel { x: -10, y: -230, w: 60, h: 60 }
    } else if i == 7 {
        RectModel { x: -340, y: -140, w: 80, h: 80 }
    } else if i == 8 {
        RectModel { x: -390, y: 160, w: 80, h: 80 }
    } else if i == 9 {
        RectModel { x: -40, y: 360, w: 80, h: 80 }
    } else if i == 10 {
        RectModel { x: 310, y: 260, w: 80, h: 80 }
    } else if i == 11 {
        RectModel { x: 160, y: -90, w: 80, h: 80 }
    } else if i == 12 {
        RectModel { x: -20, y: -120, w: 40, h: 40 }
    } else if i == 13 {
        RectModel { x: 0, y: 0, w: 0, h: 0 }
    } else {
        RectModel { x: 50, y: 50, w: 0, h: 0 }
    }
}

impl AdvancedEnemyData {
    /// Builds the wide-swing animation: fifteen Down-authored keyframes
    /// driven by a thirteen-entry interval schedule.
    pub fn new() -> (d: AdvancedEnemyData)
        ensures
            d.wide_swing.wf(),
            d.wide_swing.spec_active(),
            d.wide_swing.spec_loops(),
            d.wide_swing.spec_current_interval() == 0,
            d.wide_swing.spec_countdown() == 4,
            d.wide_swing.spec_intervals() == seq![4usize, 5, 5, 5, 5, 5, 6, 6, 4, 5, 7, 45, 10],
            forall|k: int| 0 <= k < 4 ==> d.wide_swing.spec_strings()[k].frames().len() == 15,
            forall|k: int, i: int|
                0 <= k < 4 && 0 <= i < 15 ==> (#[trigger] d.wide_swing.spec_strings()[k].frames()[
                    i
                ]).members() == seq![rotate_rect_n(wide_swing_rect(i), ((k + 1) % 4) as nat)],
    {
        let mut zero: Vec<Vec<Hitbox>> = Vec::new();
        zero.push(single(Hitbox::point_size(Vec2::new(50, 50), 40)));
        zero.push(single(Hitbox::point_size(Vec2::new(55, -20), 40)));
        zero.push(single(Hitbox::point_size(Vec2::new(-80, 0), 40)));
        zero.push(single(Hitbox::point_size(Vec2::new(0, 100), 40)));
        zero.push(single(Hitbox::point_size(Vec2::new(150, 75), 40)));
        zero.push(single(Hitbox::point_size(Vec2::new(165, -150), 60)));
        zero.push(single(Hitbox::point_size(Vec2::new(20, -200), 60)));
        zero.push(single(Hitbox::point_size(Vec2::new(-300, -100), 80)));
        zero.push(single(Hitbox::point_size(Vec2::new(-350, 200), 80)));
        zero.push(single(Hitbox::point_size(Vec2::new(0, 400), 80)));
        zero.push(single(Hitbox::point_size(Vec2::new(350, 300), 80)));
        zero.push(single(Hitbox::point_size(Vec2::new(200, -50), 80)));
        zero.push(single(Hitbox::point_size(Vec2::new(0, -100), 40)));
        zero.push(single(Hitbox::point_size(Vec2::new(0, 0), 0)));
        zero.push(single(Hitbox::point_size(Vec2::new(50, 50), 0)));
        proof {
            assert(forall|i: int, j: int|
                0 <= i < zero@.len() && 0 <= j < zero@[i]@.len() ==> (#[trigger] zero@[i]@[j]).wf());
        }
        let table = HitboxFrameString::from_hitboxes(&zero, Direction::Down);
        proof {
            assert forall|i: int| 0 <= i < table.frames().len() implies (#[trigger] table.frames()[
                i
            ]).members_authored() by {
                assert forall|j: int|
                    0 <= j < table.frames()[i].members().len() implies crate::geometry::rect_wf(
                    #[trigger] table.frames()[i].members()[j],
                ) by {
                    assert(table.frames()[i].members()[j] == zero@[i]@[j]@);
                }
            }
        }
        let mut intervals: Vec<usize> = Vec::new();
        intervals.push(4);
        intervals.push(5);
        intervals.push(5);
        intervals.push(5);
        intervals.push(5);
        intervals.push(5);
        intervals.push(6);
        intervals.push(6);
        intervals.push(4);
        intervals.push(5);
        intervals.push(7);
        intervals.push(45);
        intervals.push(10);
        proof {
            assert(intervals@ =~= seq![4usize, 5, 5, 5, 5, 5, 6, 6, 4, 5, 7, 45, 10]);
            assert forall|i: int| 0 <= i < 15 implies (#[trigger] table.frames()[i]).members()
                =~= seq![wide_swing_rect(i)] by {
                assert(table.frames()[i].members().len() == zero@[i]@.len());
                assert(table.frames()[i].members()[0] == zero@[i]@.map_values(|h: Hitbox| h@)[0]);
            }
        }
        let wide_swing = HitboxAnimation::new(&table, intervals);
        proof {
            assert forall|k: int, i: int|
                0 <= k < 4 && 0 <= i < 15 implies (#[trigger] wide_swing.spec_strings()[k].frames()[
                i
            ]).members() =~= seq![rotate_rect_n(wide_swing_rect(i), ((k + 1) % 4) as nat)] by {
                if k == 0 {
                    assert(frame_rotated(
                        table.frames()[i],
                        wide_swing.spec_strings()[0].frames()[i],
                        Direction::Right,
                    ));
                } else if k == 1 {
                    assert(frame_rotated(
                        table.frames()[i],
                        wide_swing.spec_strings()[1].frames()[i],
                        Direction::Up,
                    ));
                } else if k == 2 {
                    assert(frame_rotated(
                        table.frames()[i],
                        wide_swing.spec_strings()[2].frames()[i],
                        Direction::Left,
                    ));
                } else {
                    assert(frame_rotated(
                        table.frames()[i],
                        wide_swing.spec_strings()[3].frames()[i],
                        Direction::Down,
                    ));
                }
                assert(table.frames()[i].members()[0] == wide_swing_rect(i));
            }
        }
        AdvancedEnemyData { wide_swing }
    }
}

/// Storage for runtime-generated data that lasts for the whole program
/// and is shared read-only by every instance.
pub struct StaticAssets {
    pub protag: ProtagData,
    pub advanced_enemy: AdvancedEnemyData,
}

impl StaticAssets {
    /// Builds every startup table.
    pub fn new() -> (a: StaticAssets)
        ensures
            forall|k: int| 0 <= k < 4 ==> (#[trigger] a.protag.inventory.sword.swing@[k]).wf(),
            forall|k: int| 0 <= k < 4 ==> a.protag.inventory.sword.swing@[k].frames().len() == 7,
            forall|k: int, i: int|
                0 <= k < 4 && 0 <= i < 7 ==> (#[trigger] a.protag.inventory.sword.swing@[k].frames()[
                    i
                ]).members() == seq![rotate_rect_n(swing_rect(i), k as nat)],
            a.protag.start_pos == (Vec2 { x: 500, y: 500 }),
            a.advanced_enemy.wide_swing.wf(),
            a.advanced_enemy.wide_swing.spec_active(),
            a.advanced_enemy.wide_swing.spec_loops(),
            a.advanced_enemy.wide_swing.spec_current_interval() == 0,
            a.advanced_enemy.wide_swing.spec_countdown() == 4,
            a.advanced_enemy.wide_swing.spec_intervals() == seq![4usize, 5, 5, 5, 5, 5, 6, 6, 4, 5, 7, 45, 10],
            forall|k: int|
                0 <= k < 4 ==> a.advanced_enemy.wide_swing.spec_strings()[k].frames().len() == 15,
            forall|k: int, i: int|
                0 <= k < 4 && 0 <= i < 15 ==> (#[trigger] a.advanced_enemy.wide_swing.spec_strings()[
                    k
                ].frames()[i]).members() == seq![rotate_rect_n(wide_swing_rect(i), ((k + 1) % 4) as nat)],
    {
        StaticAssets { protag: ProtagData::new(), advanced_enemy: AdvancedEnemyData::new() }
    }
}

} // verus!
