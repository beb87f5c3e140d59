//! The live set of game entities, with stable identifiers.
//!
//! The registry substitutes for an engine entity store: it owns the single
//! player, the defender attached to them, and the enemy and projectile
//! collections, hands out never-reused enemy identifiers, and tears all
//! wave-scoped entities down at once when a wave ends.

use vstd::prelude::*;
use crate::defender::{Defender, Weapon};
use crate::enemy::Enemy;
use crate::player::Player;

verus! {

/// Every enemy of the sequence is well-formed.
pub open spec fn spec_enemies_wf(s: Seq<Enemy>) -> bool {
    forall|j: int| 0 <= j < s.len() ==> (#[trigger] s[j]).wf()
}

/// No two enemies share an identifier.
pub open spec fn spec_ids_unique(s: Seq<Enemy>) -> bool {
    forall|j: int, k: int| 0 <= j < k < s.len() ==> (#[trigger] s[j]).id != (#[trigger] s[k]).id
}

/// Every identifier is below the allocator's next one.
pub open spec fn spec_ids_below(s: Seq<Enemy>, n: u64) -> bool {
    forall|j: int| 0 <= j < s.len() ==> (#[trigger] s[j]).id < n
}

/// Some enemy of the sequence carries this identifier.
pub open spec fn spec_id_present(s: Seq<Enemy>, id: u64) -> bool {
    exists|j: int| 0 <= j < s.len() && (#[trigger] s[j]).id == id
}

/// Every weapon of the sequence is well-formed.
pub open spec fn spec_weapons_wf(s: Seq<Weapon>) -> bool {
    forall|j: int| 0 <= j < s.len() ==> (#[trigger] s[j]).wf()
}

/// The live entities of the run.
#[derive(Debug)]
pub struct Registry {
    /// Next enemy identifier to hand out; identifiers are never reused.
    pub next_id: u64,
    pub player: Option<Player>,
    pub defender: Option<Defender>,
    pub enemies: Vec<Enemy>,
    pub weapons: Vec<Weapon>,
}

impl Registry {
    pub open spec fn wf(self) -> bool {
        &&& match self.player {
            Some(p) => p.wf(),
            None => true,
        }
        &&& match self.defender {
            Some(d) => d.wf(),
            None => true,
        }
        &&& spec_enemies_wf(self.enemies@)
        &&& spec_ids_unique(self.enemies@)
        &&& spec_ids_below(self.enemies@, self.next_id)
        &&& spec_weapons_wf(self.weapons@)
    }

    /// No wave-scoped entity is live.
    pub open spec fn spec_wave_empty(self) -> bool {
        &&& self.player is None
        &&& self.defender is None
        &&& self.enemies@.len() == 0
        &&& self.weapons@.len() == 0
    }

    /// An empty registry.
    pub fn new() -> (r: Registry)
        ensures
            r.next_id == 0,
            r.spec_wave_empty(),
            r.wf(),
    {
        Registry {
            next_id: 0,
            player: None,
            defender: None,
            enemies: Vec::new(),
            weapons: Vec::new(),
        }
    }

    /// Spawn one enemy at `pos` under a fresh identifier.  When the
    /// identifier space is exhausted the spawn is skipped — a degraded
    /// no-op, never a wrap-around to a reused identifier.
    pub fn spawn_enemy(&mut self, pos: crate::math::Vec2I)
        requires
            old(self).wf(),
            pos.in_world(),
        ensures
            final(self).wf(),
            final(self).player == old(self).player,
            final(self).defender == old(self).defender,
            final(self).weapons == old(self).weapons,
            old(self).next_id < u64::MAX ==> {
                &&& final(self).enemies@ == old(self).enemies@.push(
                    Enemy::spec_spawned(old(self).next_id, pos))
                &&& final(self).next_id == old(self).next_id + 1
            },
            old(self).next_id == u64::MAX ==> *final(self) == *old(self),
    {
        if self.next_id < u64::MAX {
            let e: Enemy = Enemy::spawn(self.next_id, pos);
            proof {
                assert(forall|j: int|
                    0 <= j < self.enemies@.len() ==> (#[trigger] self.enemies@[j]).id
                        < self.next_id);
            }
            self.enemies.push(e);
            self.next_id = self.next_id + 1;
        }
    }

    /// Despawn every wave-scoped entity: the player, the defender, every
    /// enemy and every projectile.  Identifiers are not reused.
    pub fn clear_wave_entities(&mut self)
        ensures
            final(self).next_id == old(self).next_id,
            final(self).spec_wave_empty(),
            final(self).wf(),
    {
        self.player = None;
        self.defender = None;
        self.enemies = Vec::new();
        self.weapons = Vec::new();
    }

    pub fn enemy_count(&self) -> (r: usize)
        ensures
            r == self.enemies@.len(),
    {
        self.enemies.len()
    }

    pub fn weapon_count(&self) -> (r: usize)
        ensures
            r == self.weapons@.len(),
    {
        self.weapons.len()
    }

    pub fn has_player(&self) -> (r: bool)
        ensures
            r == (self.player is Some),
    {
        self.player.is_some()
    }

    pub fn has_defender(&self) -> (r: bool)
        ensures
            r == (self.defender is Some),
    {
        self.defender.is_some()
    }
}

} // verus!
