//! Combat resolution: projectile-versus-enemy and enemy-versus-player.
//!
//! A projectile damages the first enemy (in iteration order) whose circle
//! overlaps its own and who can still be damaged, then disappears — single
//! hit, no piercing, exactly one enemy damaged per hit.  Independently, if
//! the player is `Normal` and any enemy overlaps them, exactly one enemy's
//! damage applies and the player turns `Invincible`: simultaneous
//! overlapping enemies in the same tick cannot stack damage.

use vstd::prelude::*;
use crate::collision::{spec_circles_intersect, Circle};
use crate::defender::{Weapon, ARROW_SIZE};
use crate::enemy::{Enemy, NORMAL_SIZE};
use crate::health::Health;
use crate::player::{Player, PlayerState, PLAYER_SIZE};
use crate::registry::{spec_enemies_wf, spec_weapons_wf};
use crate::timer::Timer;

verus! {

/// A projectile's bounding circle.
pub open spec fn spec_weapon_circle(w: Weapon) -> Circle {
    Circle { center: w.pos, radius: ARROW_SIZE }
}

/// An enemy's bounding circle.
pub open spec fn spec_enemy_circle(e: Enemy) -> Circle {
    Circle { center: e.pos, radius: NORMAL_SIZE }
}

/// The player's bounding circle.
pub open spec fn spec_player_circle(p: Player) -> Circle {
    Circle { center: p.pos, radius: PLAYER_SIZE }
}

/// `w` hits `e`: the circles overlap and `e` can still be damaged.
pub open spec fn spec_weapon_hits(w: Weapon, e: Enemy) -> bool {
    &&& e.spec_damageable()
    &&& spec_circles_intersect(spec_weapon_circle(w), spec_enemy_circle(e))
}

/// The first index at or after `i` that `w` hits.
pub open spec fn spec_first_hit_from(w: Weapon, es: Seq<Enemy>, i: int) -> Option<int>
    decreases es.len() - i,
{
    if i < 0 || i >= es.len() {
        None
    } else if spec_weapon_hits(w, es[i]) {
        Some(i)
    } else {
        spec_first_hit_from(w, es, i + 1)
    }
}

/// `e` after taking `d` points of saturating damage.
pub open spec fn spec_damaged_enemy(e: Enemy, d: u32) -> Enemy {
    Enemy { health: Health { current: e.health.spec_after_damage(d), ..e.health }, ..e }
}

/// The combined outcome of resolving every projectile in order against the
/// evolving enemy set: `.0` is the projectiles that hit nothing and remain,
/// `.1` the enemies after all damage.
pub open spec fn spec_resolve(ws: Seq<Weapon>, es: Seq<Enemy>) -> (Seq<Weapon>, Seq<Enemy>)
    decreases ws.len(),
{
    if ws.len() == 0 {
        (Seq::<Weapon>::empty(), es)
    } else {
        let w = ws[0];
        match spec_first_hit_from(w, es, 0) {
            Some(j) => spec_resolve(ws.drop_first(), es.update(j, spec_damaged_enemy(es[j],
                w.damage))),
            None => {
                let r = spec_resolve(ws.drop_first(), es);
                (seq![w] + r.0, r.1)
            },
        }
    }
}

/// A found first hit indexes into the enemy sequence.
proof fn lemma_first_hit_range(w: Weapon, es: Seq<Enemy>, i: int)
    ensures
        match spec_first_hit_from(w, es, i) {
            Some(j) => 0 <= j < es.len() && j >= i,
            None => true,
        },
    decreases es.len() - i,
{
    if i < 0 || i >= es.len() {
    } else if spec_weapon_hits(w, es[i]) {
    } else {
        lemma_first_hit_range(w, es, i + 1);
    }
}

/// Combat never invents or removes enemies, nor changes an identity:
/// resolution keeps the enemy count and every identifier in place.
pub proof fn lemma_resolve_keeps_ids(ws: Seq<Weapon>, es: Seq<Enemy>)
    ensures
        spec_resolve(ws, es).1.len() == es.len(),
        forall|k: int| 0 <= k < es.len() ==> (#[trigger] spec_resolve(ws, es).1[k]).id == es[k].id,
    decreases ws.len(),
{
    if ws.len() == 0 {
    } else {
        let w = ws[0];
        match spec_first_hit_from(w, es, 0) {
            Some(j) => {
                lemma_first_hit_range(w, es, 0);
                let es1 = es.update(j, spec_damaged_enemy(es[j], w.damage));
                lemma_resolve_keeps_ids(ws.drop_first(), es1);
                assert(forall|k: int| 0 <= k < es.len() ==> (#[trigger] es1[k]).id == es[k].id);
            },
            None => {
                lemma_resolve_keeps_ids(ws.drop_first(), es);
            },
        }
    }
}

/// Find the first enemy this projectile hits.
fn first_hit(w: &Weapon, enemies: &Vec<Enemy>) -> (r: Option<usize>)
    requires
        w.wf(),
        spec_enemies_wf(enemies@),
    ensures
        match r {
            Some(i) => 0 <= i < enemies@.len() && Some(i as int) == spec_first_hit_from(
                *w, enemies@, 0),
            None => spec_first_hit_from(*w, enemies@, 0) is None,
        },
{
    let mut i: usize = 0;
    while i < enemies.len()
        invariant
            i <= enemies@.len(),
            w.wf(),
            spec_enemies_wf(enemies@),
            spec_first_hit_from(*w, enemies@, 0) == spec_first_hit_from(*w, enemies@, i as int),
        decreases enemies@.len() - i,
    {
        let wc: Circle = Circle { center: w.pos, radius: ARROW_SIZE };
        let ec: Circle = enemies[i].volume();
        let damageable: bool = !matches!(enemies[i].enemy_state, crate::enemy::EnemyState::Dead);
        if damageable && crate::collision::circles_intersect(&wc, &ec) {
            return Some(i);
        }
        i = i + 1;
    }
    None
}

/// Resolve one projectile: damage the first enemy it hits, exactly once,
/// leaving every other enemy untouched; report whether it hit.
pub fn weapon_hit(w: &Weapon, enemies: &mut Vec<Enemy>) -> (hit: bool)
    requires
        w.wf(),
        spec_enemies_wf(old(enemies)@),
    ensures
        spec_enemies_wf(final(enemies)@),
        match spec_first_hit_from(*w, old(enemies)@, 0) {
            Some(j) => hit && final(enemies)@ == old(enemies)@.update(j, spec_damaged_enemy(
                old(enemies)@[j], w.damage)),
            None => !hit && final(enemies)@ == old(enemies)@,
        },
{
    match first_hit(w, enemies) {
        Some(i) => {
            let mut e: Enemy = enemies[i];
            e.health.apply_damage(w.damage);
            enemies[i] = e;
            proof {
                assert(enemies@ =~= old(enemies)@.update(i as int, spec_damaged_enemy(
                    old(enemies)@[i as int], w.damage)));
            }
            true
        },
        None => false,
    }
}

/// Resolve every projectile in order against the evolving enemy set; the
/// projectiles that hit are removed, the rest remain in order.
pub fn resolve_weapon_hits(weapons: &mut Vec<Weapon>, enemies: &mut Vec<Enemy>)
    requires
        spec_weapons_wf(old(weapons)@),
        spec_enemies_wf(old(enemies)@),
    ensures
        spec_weapons_wf(final(weapons)@),
        spec_enemies_wf(final(enemies)@),
        (final(weapons)@, final(enemies)@) == spec_resolve(old(weapons)@, old(enemies)@),
{
    let ghost ws0: Seq<Weapon> = weapons@;
    let ghost es0: Seq<Enemy> = enemies@;
    let mut kept: Vec<Weapon> = Vec::new();
    proof {
        assert(ws0.skip(0) =~= ws0);
        assert(Seq::<Weapon>::empty() + spec_resolve(ws0, es0).0 =~= spec_resolve(ws0, es0).0);
    }
    let mut i: usize = 0;
    while i < weapons.len()
        invariant
            i <= ws0.len(),
            weapons@ == ws0,
            spec_weapons_wf(ws0),
            spec_enemies_wf(enemies@),
            spec_weapons_wf(kept@),
            spec_resolve(ws0, es0) == (kept@ + spec_resolve(ws0.skip(i as int), enemies@).0,
                spec_resolve(ws0.skip(i as int), enemies@).1),
        decreases ws0.len() - i,
    {
        let ghost es_before: Seq<Enemy> = enemies@;
        let w: Weapon = weapons[i];
        proof {
            assert(ws0.skip(i as int).drop_first() =~= ws0.skip(i as int + 1));
            assert(ws0.skip(i as int)[0] == ws0[i as int]);
        }
        let hit: bool = weapon_hit(&w, enemies);
        proof {
            if !hit {
                let r = spec_resolve(ws0.skip(i as int + 1), enemies@);
                assert(kept@ + (seq![w] + r.0) =~= kept@.push(w) + r.0);
            }
        }
        if !hit {
            kept.push(w);
        }
        i = i + 1;
    }
    proof {
        assert(ws0.skip(ws0.len() as int) =~= Seq::<Weapon>::empty());
        assert(kept@ + Seq::<Weapon>::empty() =~= kept@);
    }
    *weapons = kept;
}

/// The first index at or after `i` of an enemy overlapping the player.
pub open spec fn spec_first_overlap_from(p: Player, es: Seq<Enemy>, i: int) -> Option<int>
    decreases es.len() - i,
{
    if i < 0 || i >= es.len() {
        None
    } else if spec_circles_intersect(spec_player_circle(p), spec_enemy_circle(es[i])) {
        Some(i)
    } else {
        spec_first_overlap_from(p, es, i + 1)
    }
}

/// The player after one enemy's hit: damaged once, invincible, the
/// invincibility window restarted.
pub open spec fn spec_player_after_hit(p: Player, damage: u32) -> Player {
    Player {
        health: Health { current: p.health.spec_after_damage(damage), ..p.health },
        player_state: PlayerState::Invincible,
        invincibility_timer: Timer { elapsed: 0, fired: 0, ..p.invincibility_timer },
        ..p
    }
}

/// What contact resolution makes of the player: while `Normal`, the first
/// overlapping enemy applies its damage once and the player turns
/// `Invincible`; an `Invincible` or `Dead` player is never damaged.
pub open spec fn spec_player_hit(p: Player, es: Seq<Enemy>) -> Player {
    if p.player_state == PlayerState::Normal {
        match spec_first_overlap_from(p, es, 0) {
            Some(j) => spec_player_after_hit(p, es[j].damage),
            None => p,
        }
    } else {
        p
    }
}

/// Resolve enemy contact with the player, exactly `spec_player_hit`:
/// further overlaps in the same tick are debounced.
pub fn player_hit(player: &mut Player, enemies: &Vec<Enemy>)
    requires
        old(player).wf(),
        spec_enemies_wf(enemies@),
    ensures
        final(player).wf(),
        *final(player) == spec_player_hit(*old(player), enemies@),
{
    if !matches!(player.player_state, PlayerState::Normal) {
        return ;
    }
    let pc: Circle = player.volume();
    let mut i: usize = 0;
    while i < enemies.len()
        invariant
            i <= enemies@.len(),
            player.wf(),
            *player == *old(player),
            pc == spec_player_circle(*old(player)),
            old(player).player_state == PlayerState::Normal,
            spec_enemies_wf(enemies@),
            spec_first_overlap_from(*old(player), enemies@, 0) == spec_first_overlap_from(
                *old(player), enemies@, i as int),
        decreases enemies@.len() - i,
    {
        let ec: Circle = enemies[i].volume();
        if crate::collision::circles_intersect(&pc, &ec) {
            player.health.apply_damage(enemies[i].damage);
            player.player_state = PlayerState::Invincible;
            player.invincibility_timer.reset();
            return ;
        }
        i = i + 1;
    }
}

} // verus!
