//! Enemy bookkeeping fed by the collision core: combat statistics and
//! the invulnerability-frame rule applied when a hit lands.

use vstd::prelude::*;

verus! {

/// Combat statistics of an enemy.
#[derive(Clone, Copy, Debug, PartialEq, Eq, Structural)]
pub struct EnemyStats {
    pub health: i32,
    pub damage: i32,
    pub iframes: usize,
}

impl EnemyStats {
    /// Applies an incoming hit.  When no invulnerability frames remain,
    /// health drops by the damage and a fresh invulnerability window of
    /// thirty ticks starts; otherwise the hit is ignored.  Reports
    /// whether the hit landed.
    pub fn on_hit(&mut self, damage: i32) -> (landed: bool)
        requires
            i32::MIN <= old(self).health - damage <= i32::MAX,
        ensures
            landed == (old(self).iframes == 0),
            old(self).iframes == 0 ==> final(self).health == old(self).health - damage
                && final(self).iframes == 30,
            old(self).iframes > 0 ==> *final(self) == *old(self),
            final(self).damage == old(self).damage,
    {
        if self.iframes == 0 {
            self.health = self.health - damage;
            self.iframes = 30;
            true
        } else {
            false
        }
    }

    /// One tick of the invulnerability window: counts the remaining
    /// frames down to zero and no further.
    pub fn tick_iframes(&mut self)
        ensures
            final(self).iframes == (if old(self).iframes > 0 {
                old(self).iframes - 1
            } else {
                0
            }),
            final(self).health == old(self).health,
            final(self).damage == old(self).damage,
    {
        if self.iframes > 0 {
            self.iframes = self.iframes - 1;
        }
    }
}

} // verus!
