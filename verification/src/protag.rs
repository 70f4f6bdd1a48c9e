//! The protagonist: movement permissions, the facing rule applied to
//! input, the inventory, and the sword attack's keyframe state machine.

use crate::assets::ProtagData;
use crate::collision::{Hitbox, HitboxFrameString, HitboxType};
use crate::geometry::{RectModel, Vec2};
use crate::Direction;
use vstd::prelude::*;

verus! {

/// The kinds of item the protagonist can hold.
#[derive(Clone, Copy, Debug, PartialEq, Eq, Structural, Default)]
pub enum ItemType {
    #[default]
    NoItem,
    Sword,
    Boomerang,
    Bow,
    Bomb,
}

/// Hooks that items use to communicate details to the player.
pub trait ProtagItem {
    /// If false, the item can be switched out and does not need updates
    /// locked to it.
    fn active(&mut self) -> bool;

    /// If false, the player cannot move while the item is active.
    fn can_move(&mut self) -> bool;

    /// If false, the player cannot turn while the item is active.
    fn can_turn(&mut self) -> bool;
}

/// The sword attack's state: idle, or mid-swing at a keyframe index in
/// a fixed facing.
#[derive(Clone, Copy, Debug, PartialEq, Eq, Structural, Default)]
pub enum SwordState {
    #[default]
    Inactive,
    Active { frame: usize, direction: Direction },
}

/// The protagonist's sword: the swing state and the four directional
/// swing keyframe strings.
#[derive(Clone, Debug)]
pub struct Sword {
    pub state: SwordState,
    pub swing: [HitboxFrameString; 4],
}

impl Sword {
    /// Every directional swing string is well formed.
    pub open spec fn wf(&self) -> bool {
        forall|d: int| 0 <= d < 4 ==> (#[trigger] self.swing@[d]).wf()
    }

    /// A sword at rest over the given directional swing table.
    pub fn new(swing: [HitboxFrameString; 4]) -> (s: Sword)
        ensures
            s.state == SwordState::Inactive,
            s.swing@ == swing@,
    {
        Sword { state: SwordState::Inactive, swing }
    }

    /// One input tick of the sword state machine.  An idle sword starts
    /// a swing in the player's facing when attack is pressed; an active
    /// swing advances one keyframe and ends after the last keyframe of
    /// its facing's string.
    pub fn update(&mut self, attack_pressed: bool, facing: Direction)
        ensures
            final(self).swing@ == old(self).swing@,
            (match old(self).state {
                SwordState::Inactive => final(self).state == (if attack_pressed {
                    SwordState::Active { frame: 0, direction: facing }
                } else {
                    SwordState::Inactive
                }),
                SwordState::Active { frame, direction } => final(self).state == (if frame + 1
                    >= old(self).swing@[direction.ord()].frames().len() {
                    SwordState::Inactive
                } else {
                    SwordState::Active { frame: (frame + 1) as usize, direction }
                }),
            }),
    {
        match self.state {
            SwordState::Inactive => {
                if attack_pressed {
                    self.state = SwordState::Active { frame: 0, direction: facing };
                }
            },
            SwordState::Active { frame, direction } => {
                let d = direction.ordinal();
                let len = self.swing[d].len();
                if len == 0 || frame >= len - 1 {
                    self.state = SwordState::Inactive;
                } else {
                    self.state = SwordState::Active { frame: frame + 1, direction };
                }
            },
        }
    }
}

impl ProtagItem for Sword {
    /// The sword locks the player exactly while a swing is running.
    fn active(&mut self) -> bool {
        match self.state {
            SwordState::Inactive => false,
            SwordState::Active { .. } => true,
        }
    }

    fn can_move(&mut self) -> bool {
        !self.active()
    }

    fn can_turn(&mut self) -> bool {
        !self.active()
    }
}

/// What the protagonist carries.
#[derive(Clone, Debug)]
pub struct Inventory {
    pub sword: Sword,
    pub current_item: ItemType,
}

impl Inventory {
    /// An inventory holding the given sword, selected.
    pub fn new(sword: Sword) -> (inv: Inventory)
        ensures
            inv.sword == sword,
            inv.current_item == ItemType::Sword,
    {
        Inventory { sword, current_item: ItemType::Sword }
    }
}

/// Movement permissions and the hurt flag for the protagonist.
#[derive(Clone, Copy, Debug, PartialEq, Eq, Structural)]
pub struct ProtagController {
    pub can_move: bool,
    pub can_turn: bool,
    pub hurt: bool,
}

impl ProtagController {
    /// A fresh controller: free to move and turn, unhurt.
    pub fn new() -> (c: ProtagController)
        ensures
            c.can_move,
            c.can_turn,
            !c.hurt,
    {
        ProtagController { can_move: true, can_turn: true, hurt: false }
    }
}

/// The facing chosen from a movement input axis: horizontal input wins
/// over vertical, and no input keeps the current facing.
pub fn get_direction(input: Vec2, default: Direction) -> (d: Direction)
    ensures
        d == (if input.x > 0 {
            Direction::Right
        } else if input.x < 0 {
            Direction::Left
        } else if input.y > 0 {
            Direction::Down
        } else if input.y < 0 {
            Direction::Up
        } else {
            default
        }),
{
    if input.x > 0 {
        Direction::Right
    } else if input.x < 0 {
        Direction::Left
    } else if input.y > 0 {
        Direction::Down
    } else if input.y < 0 {
        Direction::Up
    } else {
        default
    }
}

/// The movement axis summed from the four pressed direction keys:
/// opposite keys cancel out.
pub fn get_input_axis(left: bool, right: bool, up: bool, down: bool) -> (v: Vec2)
    ensures
        v.x == (if right { 1int } else { 0int }) - (if left { 1int } else { 0int }),
        v.y == (if down { 1int } else { 0int }) - (if up { 1int } else { 0int }),
{
    let mut x: i64 = 0;
    let mut y: i64 = 0;
    if left {
        x = x + Direction::Left.to_vec().x;
    }
    if right {
        x = x + Direction::Right.to_vec().x;
    }
    if up {
        y = y + Direction::Up.to_vec().y;
    }
    if down {
        y = y + Direction::Down.to_vec().y;
    }
    Vec2 { x, y }
}

/// The protagonist: world position, drawn scale, facing, hurtbox,
/// controller flags and inventory.
#[derive(Clone, Debug)]
pub struct Protag {
    pub position: Vec2,
    pub scale: Vec2,
    pub direction: Direction,
    pub hurtbox: Hitbox,
    pub controller: ProtagController,
    pub inventory: Inventory,
}

impl Protag {
    /// A protagonist at the start position of the given data, facing
    /// down, with an eighty-unit square hurtbox centered on it.
    pub fn new(init: ProtagData) -> (p: Protag)
        ensures
            p.position == init.start_pos,
            p.direction == Direction::Down,
            p.scale == (Vec2 { x: 80, y: 80 }),
            p.hurtbox@ == (RectModel { x: -40, y: -40, w: 80, h: 80 }),
            p.hurtbox.wf(),
            p.controller.can_move && p.controller.can_turn && !p.controller.hurt,
            p.inventory.current_item == ItemType::Sword,
            p.inventory.sword.state == SwordState::Inactive,
            p.inventory.sword.swing@ == init.inventory.sword.swing@,
    {
        Protag {
            position: init.start_pos,
            direction: Direction::Down,
            inventory: Inventory::new(Sword::new(init.inventory.sword.swing)),
            controller: ProtagController::new(),
            scale: Vec2 { x: 80, y: 80 },
            hurtbox: Hitbox::point_size(Vec2::new(0, 0), 80),
        }
    }

    /// Tests the protagonist's hurtbox against an enemy shape and
    /// records the outcome in the controller's hurt flag.
    pub fn handle_enemy_collision(&mut self, enemy: HitboxType, enemy_offset: Vec2) -> (hit: bool)
        requires
            crate::geometry::rect_loose(old(self).hurtbox@),
            crate::collision::shape_wf(enemy),
            old(self).position.wf(),
            enemy_offset.wf(),
        ensures
            hit == crate::collision::frames_collide(
                seq![old(self).hurtbox@],
                crate::collision::shape_members(enemy),
                old(self).position,
                enemy_offset,
            ),
            final(self).controller.hurt == hit,
            final(self).controller.can_move == old(self).controller.can_move,
            final(self).controller.can_turn == old(self).controller.can_turn,
            final(self).position == old(self).position,
            final(self).scale == old(self).scale,
            final(self).direction == old(self).direction,
            final(self).hurtbox == old(self).hurtbox,
            final(self).inventory == old(self).inventory,
    {
        let hit = self.hurtbox.colliding(enemy, self.position, enemy_offset);
        self.controller.hurt = hit;
        hit
    }
}

} // verus!
