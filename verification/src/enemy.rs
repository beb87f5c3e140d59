//! Enemies: spawn grace, pure pursuit of the player, death bookkeeping.
//!
//! An enemy starts `Spawning` (a short grace period without movement), turns
//! `Active` when its spawn timer fires, then recomputes its direction every
//! tick as the offset from its own position to the player's — pure pursuit,
//! not predictive.  When its health reaches zero it turns `Dead` (movement
//! stops, it can no longer be targeted or damaged) and is despawned once its
//! death timer fires.

use vstd::prelude::*;
use crate::collision::Circle;
use crate::health::Health;
use crate::math::{spec_advance, Vec2I, DT_LIMIT, SPEED_LIMIT};
use crate::timer::{Timer, TimerMode};

verus! {

/// Contact damage of a normal enemy, in hit points.
pub const NORMAL_DAMAGE: u32 = 2;

/// Bounding radius of a normal enemy, in millipixels.
pub const NORMAL_SIZE: i64 = 8_000;

/// Default enemy speed, in pixels per second.
pub const ENEMY_SPEED: u32 = 120;

/// Hit points an enemy spawns with.
pub const ENEMY_HEALTH: u32 = 5;

/// How long a dead enemy lingers before despawning, in milliseconds.
pub const ENEMY_DEATH_RATE: u64 = 1_000;

/// Grace period after spawning, in milliseconds.
pub const ENEMY_SPAWN_RATE: u64 = 1_000;

#[derive(Clone, Copy, Debug, PartialEq, Eq, Structural)]
pub enum EnemyState {
    Active,
    Dead,
    Spawning,
}

impl Default for EnemyState {
    fn default() -> (r: Self)
        ensures
            r == EnemyState::Spawning,
    {
        EnemyState::Spawning
    }
}

#[derive(Clone, Copy, Debug, PartialEq, Eq, Structural)]
pub enum EnemyType {
    Normal,
}

impl Default for EnemyType {
    fn default() -> (r: Self)
        ensures
            r == EnemyType::Normal,
    {
        EnemyType::Normal
    }
}

/// One enemy: identity, position, pursuit direction and bookkeeping timers.
#[derive(Clone, Copy, Debug, PartialEq, Eq, Structural)]
pub struct Enemy {
    /// Stable identifier handed out by the registry.
    pub id: u64,
    pub pos: Vec2I,
    pub damage: u32,
    pub death_timer: Timer,
    pub direction: Vec2I,
    pub enemy_type: EnemyType,
    pub enemy_state: EnemyState,
    pub health: Health,
    pub spawn_timer: Timer,
    pub speed: u32,
}

impl Enemy {
    pub open spec fn wf(self) -> bool {
        &&& self.pos.in_world()
        &&& self.direction.is_dir()
        &&& self.speed <= SPEED_LIMIT
        &&& self.death_timer.wf()
        &&& self.spawn_timer.wf()
        &&& self.health.wf()
        &&& self.enemy_state != EnemyState::Dead ==> self.death_timer.fired == 0
    }

    /// Only an `Active` enemy may be targeted by the defender.
    pub open spec fn spec_targetable(self) -> bool {
        self.enemy_state == EnemyState::Active
    }

    /// A `Dead` enemy can no longer be damaged.
    pub open spec fn spec_damageable(self) -> bool {
        self.enemy_state != EnemyState::Dead
    }

    /// The record a fresh spawn produces.
    pub open spec fn spec_spawned(id: u64, pos: Vec2I) -> Enemy {
        Enemy {
            id,
            pos,
            damage: NORMAL_DAMAGE,
            death_timer: Timer::spec_fresh(ENEMY_DEATH_RATE, TimerMode::Once),
            direction: Vec2I::spec_zero(),
            enemy_type: EnemyType::Normal,
            enemy_state: EnemyState::Spawning,
            health: Health {
                current: ENEMY_HEALTH,
                max: ENEMY_HEALTH,
                state: crate::health::HealthState::Alive,
            },
            spawn_timer: Timer::spec_fresh(ENEMY_SPAWN_RATE, TimerMode::Once),
            speed: ENEMY_SPEED,
        }
    }

    /// A fresh normal enemy at `pos` with identity `id`: full health, in the
    /// spawn grace period, not yet moving.
    pub fn spawn(id: u64, pos: Vec2I) -> (r: Enemy)
        requires
            pos.in_world(),
        ensures
            r == Enemy::spec_spawned(id, pos),
            r.id == id,
            r.pos == pos,
            r.damage == NORMAL_DAMAGE,
            r.direction == Vec2I::spec_zero(),
            r.enemy_type == EnemyType::Normal,
            r.enemy_state == EnemyState::Spawning,
            r.health.current == ENEMY_HEALTH && r.health.max == ENEMY_HEALTH,
            r.speed == ENEMY_SPEED,
            r.death_timer.duration == ENEMY_DEATH_RATE && r.death_timer.elapsed == 0
                && r.death_timer.mode == TimerMode::Once,
            r.spawn_timer.duration == ENEMY_SPAWN_RATE && r.spawn_timer.elapsed == 0
                && r.spawn_timer.mode == TimerMode::Once,
            r.wf(),
    {
        Enemy {
            id,
            pos,
            damage: NORMAL_DAMAGE,
            death_timer: Timer::from_millis(ENEMY_DEATH_RATE, TimerMode::Once),
            direction: Vec2I::zero(),
            enemy_type: EnemyType::Normal,
            enemy_state: EnemyState::Spawning,
            health: Health::new(ENEMY_HEALTH),
            spawn_timer: Timer::from_millis(ENEMY_SPAWN_RATE, TimerMode::Once),
            speed: ENEMY_SPEED,
        }
    }

    /// The enemy's bounding circle.
    pub fn volume(&self) -> (r: Circle)
        ensures
            r == (Circle { center: self.pos, radius: NORMAL_SIZE }),
    {
        Circle {
            center: self.pos,
            radius: match self.enemy_type {
                EnemyType::Normal => NORMAL_SIZE,
            },
        }
    }

    /// What one behavior tick makes of the enemy.
    pub open spec fn spec_behavior_stepped(self, player_pos: Vec2I, dt: int) -> Enemy {
        match self.enemy_state {
            EnemyState::Spawning => {
                let t = self.spawn_timer.spec_tick(dt);
                Enemy {
                    direction: Vec2I::spec_zero(),
                    spawn_timer: t,
                    enemy_state: if t.fired >= 1 {
                        EnemyState::Active
                    } else {
                        EnemyState::Spawning
                    },
                    ..self
                }
            },
            EnemyState::Active => Enemy {
                direction: Vec2I {
                    x: (player_pos.x - self.pos.x) as i64,
                    y: (player_pos.y - self.pos.y) as i64,
                },
                ..self
            },
            EnemyState::Dead => Enemy {
                direction: Vec2I::spec_zero(),
                death_timer: self.death_timer.spec_tick(dt),
                ..self
            },
        }
    }

    /// What one movement tick makes of the enemy.
    pub open spec fn spec_moved(self, dt: int) -> Enemy {
        Enemy {
            pos: if self.enemy_state == EnemyState::Active {
                spec_advance(self.pos, self.direction, self.speed as int, dt)
            } else {
                self.pos
            },
            ..self
        }
    }

    /// One whole enemy tick: behavior, then movement.
    pub open spec fn spec_step(self, player_pos: Vec2I, dt: int) -> Enemy {
        self.spec_behavior_stepped(player_pos, dt).spec_moved(dt)
    }

    /// The enemy's death timer fired: its body is due for despawning.
    pub open spec fn spec_expired(self) -> bool {
        self.enemy_state == EnemyState::Dead && self.death_timer.fired >= 1
    }

    /// One behavior tick.
    ///
    /// Spawning: no movement direction; the grace timer runs and its finish
    /// activates the enemy.  Active: the direction becomes the offset from
    /// the enemy to the player (pure pursuit, exactly `P - E`).  Dead: no
    /// direction; the death timer runs and its finish asks for a despawn.
    pub fn behavior(&mut self, player_pos: Vec2I, dt: u64) -> (despawn: bool)
        requires
            old(self).wf(),
            player_pos.in_world(),
            dt <= DT_LIMIT,
        ensures
            final(self).wf(),
            *final(self) == old(self).spec_behavior_stepped(player_pos, dt as int),
            despawn == final(self).spec_expired(),
            // Pure pursuit: one Active tick aims the enemy exactly at the
            // offset from its position to the player's.
            old(self).enemy_state == EnemyState::Active ==> {
                &&& final(self).direction.x == player_pos.x - old(self).pos.x
                &&& final(self).direction.y == player_pos.y - old(self).pos.y
            },
    {
        match self.enemy_state {
            EnemyState::Spawning => {
                self.direction = Vec2I::zero();
                self.spawn_timer.tick(dt);
                if self.spawn_timer.just_finished() {
                    self.enemy_state = EnemyState::Active;
                }
                false
            },
            EnemyState::Active => {
                match self.enemy_type {
                    EnemyType::Normal => {
                        self.direction = player_pos.sub(self.pos);
                    },
                }
                false
            },
            EnemyState::Dead => {
                self.direction = Vec2I::zero();
                self.death_timer.tick(dt);
                self.death_timer.just_finished()
            },
        }
    }

    /// One movement tick: only an `Active` enemy integrates its position.
    pub fn movement(&mut self, dt: u64)
        requires
            old(self).wf(),
            dt <= DT_LIMIT,
        ensures
            final(self).wf(),
            *final(self) == old(self).spec_moved(dt as int),
    {
        if matches!(self.enemy_state, EnemyState::Active) {
            self.pos = crate::math::advance(self.pos, self.direction, self.speed, dt);
        }
    }

    /// What the death check makes of the enemy: one whose health was
    /// observed at zero turns `Dead`.
    pub open spec fn spec_death_updated(self) -> Enemy {
        Enemy {
            enemy_state: if self.health.current == 0 {
                EnemyState::Dead
            } else {
                self.enemy_state
            },
            ..self
        }
    }

    /// Death bookkeeping, exactly `spec_death_updated`: a controller
    /// decision, not a side effect of taking damage.
    pub fn update_death(&mut self)
        requires
            old(self).wf(),
        ensures
            final(self).wf(),
            *final(self) == old(self).spec_death_updated(),
    {
        if self.health.current == 0 && !matches!(self.enemy_state, EnemyState::Dead) {
            self.enemy_state = EnemyState::Dead;
        }
    }
}

/// The enemy set after one whole tick: every enemy stepped, and the bodies
/// whose death timers fired removed, order otherwise kept.
pub open spec fn spec_step_all(s: Seq<Enemy>, player_pos: Vec2I, dt: int) -> Seq<Enemy>
    decreases s.len(),
{
    if s.len() == 0 {
        Seq::<Enemy>::empty()
    } else {
        let init = spec_step_all(s.drop_last(), player_pos, dt);
        let stepped = s.last().spec_step(player_pos, dt);
        if stepped.spec_expired() {
            init
        } else {
            init.push(stepped)
        }
    }
}

} // verus!
