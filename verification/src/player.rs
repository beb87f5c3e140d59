//! The player: momentum-like steering, movement, damage debounce and death.
//!
//! Steering does not snap: each tick the facing offset moves toward the
//! desired offset (the normalized sum of the held movement axes) by a fixed
//! bounded step per component, which produces gradual, momentum-like
//! turning.  Movement normalizes the facing offset, so only its direction
//! matters.

use vstd::prelude::*;
use crate::action::{Input, AXIS_MILLI};
use crate::collision::Circle;
use crate::health::Health;
use crate::math::{spec_advance, spec_toward, Vec2I, DT_LIMIT, SPEED_LIMIT};
use crate::timer::{Timer, TimerMode};

verus! {

/// How long a dead player lingers before the run ends, in milliseconds.
pub const PLAYER_DEATH_RATE: u64 = 1_000;

/// Invincibility window after a hit, in milliseconds.
pub const INVINCIBILITY_RATE: u64 = 250;

/// Bounding radius of the player, in millipixels.
pub const PLAYER_SIZE: i64 = 16_000;

/// Default player speed, in pixels per second.
pub const PLAYER_SPEED: u32 = 120;

/// Hit points the player spawns with.
pub const PLAYER_HEALTH: u32 = 10;

/// Largest change of each facing component per steering tick, in
/// thousandths of an axis unit: the bounded turn rate.
pub const TURN_STEP: i64 = 30;

#[derive(Clone, Copy, Debug, PartialEq, Eq, Structural)]
pub enum PlayerState {
    Dead,
    Invincible,
    Normal,
}

/// The player record: position, facing, health, and the two personal
/// timers (invincibility window and death delay).
#[derive(Clone, Copy, Debug, PartialEq, Eq, Structural)]
pub struct Player {
    pub pos: Vec2I,
    pub death_timer: Timer,
    pub direction: Vec2I,
    pub health: Health,
    pub invincibility_timer: Timer,
    pub player_state: PlayerState,
    pub speed: u32,
}

impl Player {
    pub open spec fn wf(self) -> bool {
        &&& self.pos.in_world()
        &&& -AXIS_MILLI <= self.direction.x <= AXIS_MILLI
        &&& -AXIS_MILLI <= self.direction.y <= AXIS_MILLI
        &&& self.speed <= SPEED_LIMIT
        &&& self.death_timer.wf()
        &&& self.invincibility_timer.wf()
        &&& self.health.wf()
    }

    /// The record a fresh spawn produces.
    pub open spec fn spec_spawned() -> Player {
        Player {
            pos: Vec2I::spec_zero(),
            death_timer: Timer::spec_fresh(PLAYER_DEATH_RATE, TimerMode::Once),
            direction: Vec2I { x: 0, y: AXIS_MILLI },
            health: Health {
                current: PLAYER_HEALTH,
                max: PLAYER_HEALTH,
                state: crate::health::HealthState::Alive,
            },
            invincibility_timer: Timer::spec_fresh(INVINCIBILITY_RATE, TimerMode::Once),
            player_state: PlayerState::Normal,
            speed: PLAYER_SPEED,
        }
    }

    /// A fresh player at the arena center, facing up, at full health.
    pub fn spawn() -> (r: Player)
        ensures
            r == Player::spec_spawned(),
            r.pos == Vec2I::spec_zero(),
            r.direction == (Vec2I { x: 0, y: AXIS_MILLI }),
            r.player_state == PlayerState::Normal,
            r.health.current == PLAYER_HEALTH && r.health.max == PLAYER_HEALTH,
            r.speed == PLAYER_SPEED,
            r.death_timer.duration == PLAYER_DEATH_RATE && r.death_timer.elapsed == 0
                && r.death_timer.mode == TimerMode::Once,
            r.invincibility_timer.duration == INVINCIBILITY_RATE
                && r.invincibility_timer.elapsed == 0 && r.invincibility_timer.mode
                == TimerMode::Once,
            r.wf(),
    {
        Player {
            pos: Vec2I::zero(),
            death_timer: Timer::from_millis(PLAYER_DEATH_RATE, TimerMode::Once),
            direction: Vec2I { x: 0, y: AXIS_MILLI },
            health: Health::new(PLAYER_HEALTH),
            invincibility_timer: Timer::from_millis(INVINCIBILITY_RATE, TimerMode::Once),
            player_state: PlayerState::Normal,
            speed: PLAYER_SPEED,
        }
    }

    /// The player's bounding circle.
    pub fn volume(&self) -> (r: Circle)
        ensures
            r == (Circle { center: self.pos, radius: PLAYER_SIZE }),
    {
        Circle { center: self.pos, radius: PLAYER_SIZE }
    }

    /// What one steering tick makes of the player: if any movement intent
    /// is held, each facing component moves toward the desired offset by at
    /// most `TURN_STEP`; with no intent held the facing is kept.
    pub open spec fn spec_steered(self, input: Input) -> Player {
        Player {
            direction: if input.spec_steer_offset().is_zero() {
                self.direction
            } else {
                Vec2I {
                    x: spec_toward(self.direction.x as int, input.spec_steer_offset().x as int,
                        TURN_STEP as int) as i64,
                    y: spec_toward(self.direction.y as int, input.spec_steer_offset().y as int,
                        TURN_STEP as int) as i64,
                }
            },
            ..self
        }
    }

    /// One steering tick, exactly `spec_steered`.
    pub fn steer(&mut self, input: &Input)
        requires
            old(self).wf(),
        ensures
            final(self).wf(),
            *final(self) == old(self).spec_steered(*input),
    {
        let target: Vec2I = input.steer_offset();
        if !(target.x == 0 && target.y == 0) {
            self.direction = Vec2I {
                x: crate::math::coord_toward(self.direction.x, target.x, TURN_STEP),
                y: crate::math::coord_toward(self.direction.y, target.y, TURN_STEP),
            };
        }
    }

    /// What one movement tick makes of the player: `position += direction
    /// * speed * dt`, unconditionally except while `Dead`.
    pub open spec fn spec_moved(self, dt: int) -> Player {
        Player {
            pos: if self.player_state == PlayerState::Dead {
                self.pos
            } else {
                spec_advance(self.pos, self.direction, self.speed as int, dt)
            },
            ..self
        }
    }

    /// One movement tick, exactly `spec_moved`.
    pub fn movement(&mut self, dt: u64)
        requires
            old(self).wf(),
            dt <= DT_LIMIT,
        ensures
            final(self).wf(),
            *final(self) == old(self).spec_moved(dt as int),
    {
        if !matches!(self.player_state, PlayerState::Dead) {
            self.pos = crate::math::advance(self.pos, self.direction, self.speed, dt);
        }
    }

    /// What the death check makes of the player: a living player whose
    /// health was observed at zero turns `Dead` and the death delay starts.
    pub open spec fn spec_death_checked(self) -> Player {
        if self.player_state != PlayerState::Dead && self.health.current == 0 {
            Player {
                player_state: PlayerState::Dead,
                death_timer: Timer { elapsed: 0, fired: 0, ..self.death_timer },
                ..self
            }
        } else {
            self
        }
    }

    /// Death bookkeeping, exactly `spec_death_checked`: a living player
    /// whose health was observed at zero turns `Dead` within the same tick.
    pub fn update_death(&mut self)
        requires
            old(self).wf(),
        ensures
            final(self).wf(),
            *final(self) == old(self).spec_death_checked(),
    {
        if !matches!(self.player_state, PlayerState::Dead) && self.health.current == 0 {
            self.death_timer.reset();
            self.player_state = PlayerState::Dead;
        }
    }

    /// What one invincibility tick makes of the player: the window runs
    /// only while `Invincible`, and its finish returns the player to
    /// `Normal`.
    pub open spec fn spec_invincibility_ticked(self, dt: int) -> Player {
        if self.player_state == PlayerState::Invincible {
            let t = self.invincibility_timer.spec_tick(dt);
            Player {
                invincibility_timer: t,
                player_state: if t.fired >= 1 {
                    PlayerState::Normal
                } else {
                    PlayerState::Invincible
                },
                ..self
            }
        } else {
            self
        }
    }

    /// One invincibility tick, exactly `spec_invincibility_ticked`.
    pub fn update_invincibility(&mut self, dt: u64)
        requires
            old(self).wf(),
            dt <= DT_LIMIT,
        ensures
            final(self).wf(),
            *final(self) == old(self).spec_invincibility_ticked(dt as int),
    {
        if matches!(self.player_state, PlayerState::Invincible) {
            self.invincibility_timer.tick(dt);
            if self.invincibility_timer.just_finished() {
                self.player_state = PlayerState::Normal;
            }
        }
    }

    /// What one death-delay tick makes of the player, and whether the
    /// delay elapsed: while `Dead`, the death timer runs until it finishes,
    /// and the finish reports game over — exactly once, since a finished
    /// timer is no longer ticked.
    pub open spec fn spec_death_delay(self, dt: int) -> (Player, bool) {
        if self.player_state != PlayerState::Dead || self.death_timer.spec_finished() {
            (self, false)
        } else {
            let t = self.death_timer.spec_tick(dt);
            (Player { death_timer: t, ..self }, t.fired >= 1)
        }
    }

    /// One death-delay tick, exactly `spec_death_delay`.
    pub fn update_death_timer(&mut self, dt: u64) -> (game_over: bool)
        requires
            old(self).wf(),
            dt <= DT_LIMIT,
        ensures
            final(self).wf(),
            *final(self) == old(self).spec_death_delay(dt as int).0,
            game_over == old(self).spec_death_delay(dt as int).1,
    {
        if !matches!(self.player_state, PlayerState::Dead) {
            return false;
        }
        if self.death_timer.finished() {
            return false;
        }
        self.death_timer.tick(dt);
        self.death_timer.just_finished()
    }
}

} // verus!
