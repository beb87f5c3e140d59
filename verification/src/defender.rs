//! The defender turret and its projectiles.
//!
//! The defender follows the player.  Each time its action timer finishes it
//! scans the `Active` enemies, picks the one at minimum squared distance
//! (ties go to the first encountered), spawns one projectile aimed at it,
//! and the timer restarts whether or not a target was found.
//!
//! A projectile homes: every tick it re-aims at its target's current
//! position.  A stale target — the enemy no longer exists — despawns the
//! projectile at once; a projectile that never had a target flies straight.
//! A lifetime timer bounds every projectile's life.

use vstd::prelude::*;
use crate::enemy::Enemy;
use crate::math::{spec_advance, spec_dist_sq, Vec2I, DT_LIMIT, SPEED_LIMIT};
use crate::timer::{Timer, TimerMode};

verus! {

/// Damage of one arrow, in hit points.
pub const ARROW_DAMAGE: u32 = 2;

/// Arrow speed, in pixels per second.
pub const ARROW_SPEED: u32 = 200;

/// Bounding radius of an arrow, in millipixels.
pub const ARROW_SIZE: i64 = 4_000;

/// Safety-net lifetime of an arrow, in milliseconds.
pub const ARROW_LIFETIME: u64 = 20_000;

/// Cadence of the defender's action timer, in milliseconds.
pub const DEFENDER_ACTION_RATE: u64 = 1_000;

#[derive(Clone, Copy, Debug, PartialEq, Eq, Structural)]
pub enum DefenderType {
    Archer,
}

#[derive(Clone, Copy, Debug, PartialEq, Eq, Structural)]
pub enum WeaponType {
    Arrow,
}

/// The turret attached to the player.
#[derive(Clone, Copy, Debug, PartialEq, Eq, Structural)]
pub struct Defender {
    pub action_timer: Timer,
    pub defender_type: DefenderType,
    pub pos: Vec2I,
}

/// A projectile in flight.  `target` is a weak reference: an enemy
/// identifier that must be re-validated against the live set every tick.
#[derive(Clone, Copy, Debug, PartialEq, Eq, Structural)]
pub struct Weapon {
    pub pos: Vec2I,
    pub damage: u32,
    pub death_timer: Timer,
    pub direction: Vec2I,
    pub speed: u32,
    pub target: Option<u64>,
}

impl Defender {
    pub open spec fn wf(self) -> bool {
        &&& self.pos.in_world()
        &&& self.action_timer.wf()
    }

    /// The record a fresh spawn produces.
    pub open spec fn spec_spawned(pos: Vec2I) -> Defender {
        Defender {
            action_timer: Timer::spec_fresh(DEFENDER_ACTION_RATE, TimerMode::Once),
            defender_type: DefenderType::Archer,
            pos,
        }
    }

    /// A fresh archer at `pos`, its action timer at zero.
    pub fn spawn(pos: Vec2I) -> (r: Defender)
        requires
            pos.in_world(),
        ensures
            r == Defender::spec_spawned(pos),
            r.pos == pos,
            r.defender_type == DefenderType::Archer,
            r.action_timer.duration == DEFENDER_ACTION_RATE && r.action_timer.elapsed == 0
                && r.action_timer.mode == TimerMode::Once,
            r.wf(),
    {
        Defender {
            action_timer: Timer::from_millis(DEFENDER_ACTION_RATE, TimerMode::Once),
            defender_type: DefenderType::Archer,
            pos,
        }
    }

    /// The defender rides on the player.
    pub fn follow(&mut self, player_pos: Vec2I)
        requires
            old(self).wf(),
            player_pos.in_world(),
        ensures
            final(self).wf(),
            *final(self) == (Defender { pos: player_pos, ..*old(self) }),
    {
        self.pos = player_pos;
    }
}

impl Weapon {
    pub open spec fn wf(self) -> bool {
        &&& self.pos.in_world()
        &&& self.direction.is_dir()
        &&& self.speed <= SPEED_LIMIT
        &&& self.death_timer.wf()
    }

    /// The record a fresh spawn produces.
    pub open spec fn spec_spawned(pos: Vec2I, target: u64) -> Weapon {
        Weapon {
            pos,
            damage: ARROW_DAMAGE,
            death_timer: Timer::spec_fresh(ARROW_LIFETIME, TimerMode::Once),
            direction: Vec2I::spec_zero(),
            speed: ARROW_SPEED,
            target: Some(target),
        }
    }

    /// A fresh arrow at `pos` aimed at the enemy with identity `target`.
    pub fn spawn(pos: Vec2I, target: u64) -> (r: Weapon)
        requires
            pos.in_world(),
        ensures
            r == Weapon::spec_spawned(pos, target),
            r.pos == pos,
            r.damage == ARROW_DAMAGE,
            r.direction == Vec2I::spec_zero(),
            r.speed == ARROW_SPEED,
            r.target == Some(target),
            r.death_timer == (Timer {
                duration: ARROW_LIFETIME,
                elapsed: 0,
                mode: TimerMode::Once,
                fired: 0,
            }),
            r.wf(),
    {
        Weapon {
            pos,
            damage: ARROW_DAMAGE,
            death_timer: Timer::from_millis(ARROW_LIFETIME, TimerMode::Once),
            direction: Vec2I::zero(),
            speed: ARROW_SPEED,
            target: Some(target),
        }
    }

    /// One lifetime tick: the safety-net timer runs; its finish despawns the
    /// projectile.
    pub fn expire(&mut self, dt: u64) -> (despawn: bool)
        requires
            old(self).wf(),
            dt <= DT_LIMIT,
        ensures
            final(self).wf(),
            *final(self) == (Weapon {
                death_timer: old(self).death_timer.spec_tick(dt as int),
                ..*old(self)
            }),
            despawn == (final(self).death_timer.fired >= 1),
    {
        self.death_timer.tick(dt);
        self.death_timer.just_finished()
    }

    /// What one flight tick makes of the projectile, and whether it goes
    /// stale: with a live target it re-aims at the target's current
    /// position and moves; with a stale target it is due for despawning;
    /// with no target it flies straight on its last direction.
    pub open spec fn spec_flight(self, enemies: Seq<Enemy>, dt: int) -> (Weapon, bool) {
        match self.target {
            None => (Weapon {
                pos: spec_advance(self.pos, self.direction, self.speed as int, dt),
                ..self
            }, false),
            Some(id) => match spec_find_enemy(enemies, id, 0) {
                None => (self, true),
                Some(j) => {
                    let aim = Vec2I {
                        x: (enemies[j].pos.x - self.pos.x) as i64,
                        y: (enemies[j].pos.y - self.pos.y) as i64,
                    };
                    (Weapon {
                        direction: aim,
                        pos: spec_advance(self.pos, aim, self.speed as int, dt),
                        ..self
                    }, false)
                },
            },
        }
    }

    /// One whole projectile tick: flight, then the lifetime timer; the
    /// projectile is due for despawning on a stale target or an expired
    /// lifetime.
    pub open spec fn spec_tick_weapon(self, enemies: Seq<Enemy>, dt: int) -> (Weapon, bool) {
        let f = self.spec_flight(enemies, dt);
        if f.1 {
            f
        } else {
            let t = f.0.death_timer.spec_tick(dt);
            (Weapon { death_timer: t, ..f.0 }, t.fired >= 1)
        }
    }

    /// One flight tick, exactly `spec_flight`.
    pub fn movement(&mut self, enemies: &Vec<Enemy>, dt: u64) -> (despawn: bool)
        requires
            old(self).wf(),
            dt <= DT_LIMIT,
            forall|j: int| 0 <= j < enemies@.len() ==> (#[trigger] enemies@[j]).wf(),
        ensures
            final(self).wf(),
            *final(self) == old(self).spec_flight(enemies@, dt as int).0,
            despawn == old(self).spec_flight(enemies@, dt as int).1,
            despawn ==> *final(self) == *old(self),
    {
        match self.target {
            Some(id) => {
                match find_enemy_index(enemies, id) {
                    Some(i) => {
                        let aim: Vec2I = enemies[i].pos.sub(self.pos);
                        self.direction = aim;
                        self.pos = crate::math::advance(self.pos, self.direction, self.speed, dt);
                        false
                    },
                    None => true,
                }
            },
            None => {
                self.pos = crate::math::advance(self.pos, self.direction, self.speed, dt);
                false
            },
        }
    }
}

/// The first index at or after `i` holding the enemy with identity `id`.
pub open spec fn spec_find_enemy(enemies: Seq<Enemy>, id: u64, i: int) -> Option<int>
    decreases enemies.len() - i,
{
    if i < 0 || i >= enemies.len() {
        None
    } else if enemies[i].id == id {
        Some(i)
    } else {
        spec_find_enemy(enemies, id, i + 1)
    }
}

/// The first index holding the enemy with identity `id`.
pub fn find_enemy_index(enemies: &Vec<Enemy>, id: u64) -> (r: Option<usize>)
    ensures
        match r {
            Some(i) => 0 <= i < enemies@.len() && Some(i as int) == spec_find_enemy(enemies@, id,
                0),
            None => spec_find_enemy(enemies@, id, 0) is None,
        },
{
    let mut i: usize = 0;
    while i < enemies.len()
        invariant
            i <= enemies@.len(),
            spec_find_enemy(enemies@, id, 0) == spec_find_enemy(enemies@, id, i as int),
        decreases enemies@.len() - i,
    {
        if enemies[i].id == id {
            return Some(i);
        }
        i = i + 1;
    }
    None
}

/// The projectile set after one whole tick: every projectile stepped, the
/// stale and expired ones removed, order otherwise kept.
pub open spec fn spec_tick_all_weapons(ws: Seq<Weapon>, enemies: Seq<Enemy>, dt: int) -> Seq<
    Weapon,
>
    decreases ws.len(),
{
    if ws.len() == 0 {
        Seq::<Weapon>::empty()
    } else {
        let init = spec_tick_all_weapons(ws.drop_last(), enemies, dt);
        let stepped = ws.last().spec_tick_weapon(enemies, dt);
        if stepped.1 {
            init
        } else {
            init.push(stepped.0)
        }
    }
}

/// The scan state of nearest-target selection: `best` is the index of the
/// nearest targetable enemy among the first `i`, earliest winning ties.
pub open spec fn spec_select_from(enemies: Seq<Enemy>, from: Vec2I, i: int, best: Option<int>)
    -> Option<int>
    decreases enemies.len() - i,
{
    if i < 0 || i >= enemies.len() {
        best
    } else {
        let better = enemies[i].spec_targetable() && (match best {
            None => true,
            Some(b) => spec_dist_sq(enemies[i].pos, from) < spec_dist_sq(enemies[b].pos, from),
        });
        spec_select_from(enemies, from, i + 1, if better {
            Some(i)
        } else {
            best
        })
    }
}

/// The index the defender targets: the nearest targetable enemy, the first
/// encountered winning ties; `None` when no enemy is targetable.
pub open spec fn spec_select_target(enemies: Seq<Enemy>, from: Vec2I) -> Option<int> {
    spec_select_from(enemies, from, 0, None)
}

/// What one defender tick does: the action timer runs; once it has
/// finished, the defender aims one arrow at the nearest targetable enemy
/// if any exists, and the timer restarts either way.
pub open spec fn spec_defender_action(d: Defender, enemies: Seq<Enemy>, dt: int) -> (
    Defender,
    Option<Weapon>,
) {
    let t = d.action_timer.spec_tick(dt);
    if !t.spec_finished() {
        (Defender { action_timer: t, ..d }, None)
    } else {
        let shot = match spec_select_target(enemies, d.pos) {
            Some(i) => Some(Weapon::spec_spawned(d.pos, enemies[i].id)),
            None => None,
        };
        (Defender { action_timer: Timer { elapsed: 0, fired: 0, ..t }, ..d }, shot)
    }
}

/// `i` indexes the first-encountered nearest targetable enemy as seen from
/// `from`: no targetable enemy is strictly nearer, and every earlier
/// targetable enemy is strictly farther.
pub open spec fn spec_first_nearest(enemies: Seq<Enemy>, from: Vec2I, i: int) -> bool {
    &&& 0 <= i < enemies.len()
    &&& enemies[i].spec_targetable()
    &&& forall|j: int|
        0 <= j < enemies.len() && (#[trigger] enemies[j]).spec_targetable() ==> spec_dist_sq(
            enemies[j].pos, from) >= spec_dist_sq(enemies[i].pos, from)
    &&& forall|j: int|
        0 <= j < i && (#[trigger] enemies[j]).spec_targetable() ==> spec_dist_sq(
            enemies[j].pos, from) > spec_dist_sq(enemies[i].pos, from)
}

/// Scan for the nearest `Active` enemy, first encountered winning ties:
/// exactly `spec_select_target`, which also satisfies `spec_first_nearest`.
pub fn select_target(enemies: &Vec<Enemy>, from: Vec2I) -> (r: Option<usize>)
    requires
        from.in_world(),
        forall|j: int| 0 <= j < enemies@.len() ==> (#[trigger] enemies@[j]).wf(),
    ensures
        match r {
            Some(i) => Some(i as int) == spec_select_target(enemies@, from)
                && spec_first_nearest(enemies@, from, i as int),
            None => spec_select_target(enemies@, from) is None && forall|j: int|
                0 <= j < enemies@.len() ==> !(#[trigger] enemies@[j]).spec_targetable(),
        },
{
    let mut found: bool = false;
    let mut best_i: usize = 0;
    let mut best_d: u64 = 0;
    let mut i: usize = 0;
    while i < enemies.len()
        invariant
            i <= enemies@.len(),
            from.in_world(),
            forall|j: int| 0 <= j < enemies@.len() ==> (#[trigger] enemies@[j]).wf(),
            spec_select_target(enemies@, from) == spec_select_from(enemies@, from, i as int,
                if found {
                    Some(best_i as int)
                } else {
                    None
                }),
            !found ==> forall|j: int|
                0 <= j < i ==> !(#[trigger] enemies@[j]).spec_targetable(),
            found ==> {
                &&& best_i < i
                &&& enemies@[best_i as int].spec_targetable()
                &&& best_d == spec_dist_sq(enemies@[best_i as int].pos, from)
                &&& forall|j: int|
                    0 <= j < i && (#[trigger] enemies@[j]).spec_targetable() ==> spec_dist_sq(
                        enemies@[j].pos, from) >= best_d
                &&& forall|j: int|
                    0 <= j < best_i && (#[trigger] enemies@[j]).spec_targetable()
                        ==> spec_dist_sq(enemies@[j].pos, from) > best_d
            },
        decreases enemies@.len() - i,
    {
        let targetable: bool = matches!(enemies[i].enemy_state, crate::enemy::EnemyState::Active);
        if targetable {
            let d: u64 = crate::math::dist_sq(enemies[i].pos, from);
            if !found || d < best_d {
                found = true;
                best_i = i;
                best_d = d;
            }
        }
        i = i + 1;
    }
    if found {
        Some(best_i)
    } else {
        None
    }
}

/// One defender tick.  The action timer runs; once it has finished, the
/// defender scans for the nearest `Active` enemy, spawns one arrow aimed at
/// it if one exists, and the timer restarts either way.
pub fn defender_action(d: &mut Defender, enemies: &Vec<Enemy>, dt: u64) -> (shot: Option<Weapon>)
    requires
        old(d).wf(),
        dt <= DT_LIMIT,
        forall|j: int| 0 <= j < enemies@.len() ==> (#[trigger] enemies@[j]).wf(),
    ensures
        final(d).wf(),
        *final(d) == spec_defender_action(*old(d), enemies@, dt as int).0,
        shot == spec_defender_action(*old(d), enemies@, dt as int).1,
        shot is Some ==> shot->Some_0.wf(),
        ({
            let ticked = old(d).action_timer.spec_tick(dt as int);
            if !ticked.spec_finished() {
                &&& final(d).action_timer == ticked
                &&& shot is None
            } else {
                &&& final(d).action_timer == (Timer { elapsed: 0, fired: 0, ..ticked })
                &&& match shot {
                    Some(w) => exists|i: int|
                        spec_first_nearest(enemies@, old(d).pos, i) && w == Weapon {
                            pos: old(d).pos,
                            damage: ARROW_DAMAGE,
                            death_timer: Timer {
                                duration: ARROW_LIFETIME,
                                elapsed: 0,
                                mode: TimerMode::Once,
                                fired: 0,
                            },
                            direction: Vec2I::spec_zero(),
                            speed: ARROW_SPEED,
                            target: Some((#[trigger] enemies@[i]).id),
                        },
                    None => forall|j: int|
                        0 <= j < enemies@.len() ==> !(#[trigger] enemies@[j]).spec_targetable(),
                }
            }
        }),
{
    d.action_timer.tick(dt);
    if !d.action_timer.finished() {
        return None;
    }
    let shot: Option<Weapon> = match select_target(enemies, d.pos) {
        Some(i) => {
            let w: Weapon = Weapon::spawn(d.pos, enemies[i].id);
            proof {
                assert(spec_first_nearest(enemies@, old(d).pos, i as int) && w == (Weapon {
                    pos: old(d).pos,
                    damage: ARROW_DAMAGE,
                    death_timer: Timer {
                        duration: ARROW_LIFETIME,
                        elapsed: 0,
                        mode: TimerMode::Once,
                        fired: 0,
                    },
                    direction: Vec2I::spec_zero(),
                    speed: ARROW_SPEED,
                    target: Some(enemies@[i as int].id),
                }));
            }
            Some(w)
        },
        None => None,
    };
    d.action_timer.reset();
    shot
}

} // verus!
