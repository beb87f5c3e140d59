//! Wave pacing: spawn cadence and count scaled by wave level, the wave
//! duration, the 3-2-1-Go preparation countdown, and the completion and
//! game-over transition delays.
//!
//! The spawn interval shrinks by half a second per level but is clamped to
//! a positive floor, so the cadence can never reach zero.

use vstd::prelude::*;
use crate::collision::{spec_circle_aabb_intersect, Aabb, Circle};
use crate::math::{Vec2I, DT_LIMIT, POS_LIMIT};
use crate::player::{Player, PlayerState, PLAYER_SIZE};
use crate::rng::rng_below;
use crate::state::{RunEvent, WaveState};
use crate::timer::{Timer, TimerMode};

verus! {

/// Enemies per spawn burst at level zero.
pub const BASE_SPAWN_AMOUNT: u32 = 1;

/// Spawn interval at level zero, in milliseconds.
pub const BASE_SPAWN_INTERVAL: u64 = 5_000;

/// How much the spawn interval shrinks per level, in milliseconds.
pub const SPAWN_INTERVAL_STEP: u64 = 500;

/// The positive floor the spawn interval is clamped to, in milliseconds.
pub const MIN_SPAWN_INTERVAL: u64 = 500;

/// Delay of the completion and game-over transitions, in milliseconds.
pub const TRANSITION_RATE: u64 = 3_000;

/// Length of one wave, in milliseconds.
pub const WAVE_RATE: u64 = 15_000;

/// One step of the preparation countdown, in milliseconds.
pub const PREPARATION_TICK: u64 = 1_000;

/// The countdown starts at 3 (3-2-1-Go).
pub const PREPARATION_COUNT: u32 = 3;

/// Paces one wave; created on entering the wave screen, destroyed on
/// leaving it.
#[derive(Clone, Copy, Debug, PartialEq, Eq, Structural)]
pub struct WaveController {
    pub enemy_spawn_amount: u32,
    pub enemy_spawn_timer: Timer,
    pub finish_timer: Timer,
    pub game_over_timer: Timer,
    pub preparation_state: u32,
    pub preparation_timer: Timer,
    pub wave_timer: Timer,
}

/// The spawn interval a level calls for: the base interval shrunk by half a
/// second per level, never below the floor.
pub open spec fn spec_spawn_interval(level: u32) -> u64 {
    if SPAWN_INTERVAL_STEP * level <= BASE_SPAWN_INTERVAL - MIN_SPAWN_INTERVAL {
        (BASE_SPAWN_INTERVAL - SPAWN_INTERVAL_STEP * level) as u64
    } else {
        MIN_SPAWN_INTERVAL
    }
}

/// The spawn burst size a level calls for.
pub open spec fn spec_spawn_amount(level: u32) -> u32 {
    (BASE_SPAWN_AMOUNT + level / 2) as u32
}

impl WaveController {
    pub open spec fn wf(self) -> bool {
        &&& self.enemy_spawn_timer.wf()
        &&& self.enemy_spawn_timer.mode == TimerMode::Repeating
        &&& self.finish_timer.wf()
        &&& self.game_over_timer.wf()
        &&& self.preparation_timer.wf()
        &&& self.wave_timer.wf()
    }

    /// The controller a level calls for.
    pub open spec fn spec_from_level(level: u32) -> WaveController {
        WaveController {
            enemy_spawn_amount: spec_spawn_amount(level),
            enemy_spawn_timer: Timer::spec_fresh(spec_spawn_interval(level), TimerMode::Repeating),
            finish_timer: Timer::spec_fresh(TRANSITION_RATE, TimerMode::Once),
            game_over_timer: Timer::spec_fresh(TRANSITION_RATE, TimerMode::Once),
            preparation_state: PREPARATION_COUNT,
            preparation_timer: Timer::spec_fresh(PREPARATION_TICK, TimerMode::Once),
            wave_timer: Timer::spec_fresh(WAVE_RATE, TimerMode::Once),
        }
    }

    /// The controller for a wave of the given level: burst size
    /// `BASE + level/2`, spawn interval `BASE - level/2 s` clamped to the
    /// floor, fresh wave, preparation, completion and game-over timers, and
    /// the countdown at 3.
    pub fn from_level(level: u32) -> (r: WaveController)
        ensures
            r == WaveController::spec_from_level(level),
            r.enemy_spawn_amount == spec_spawn_amount(level),
            r.enemy_spawn_timer.duration == spec_spawn_interval(level),
            r.enemy_spawn_timer.duration >= MIN_SPAWN_INTERVAL,
            r.enemy_spawn_timer.elapsed == 0 && r.enemy_spawn_timer.fired == 0
                && r.enemy_spawn_timer.mode == TimerMode::Repeating,
            r.finish_timer == Timer::spec_fresh(TRANSITION_RATE, TimerMode::Once),
            r.game_over_timer == Timer::spec_fresh(TRANSITION_RATE, TimerMode::Once),
            r.preparation_state == PREPARATION_COUNT,
            r.preparation_timer == Timer::spec_fresh(PREPARATION_TICK, TimerMode::Once),
            r.wave_timer == Timer::spec_fresh(WAVE_RATE, TimerMode::Once),
            r.wf(),
    {
        let scaled: u64 = SPAWN_INTERVAL_STEP * (level as u64);
        let interval: u64 = if scaled <= BASE_SPAWN_INTERVAL - MIN_SPAWN_INTERVAL {
            BASE_SPAWN_INTERVAL - scaled
        } else {
            MIN_SPAWN_INTERVAL
        };
        WaveController {
            enemy_spawn_amount: BASE_SPAWN_AMOUNT + level / 2,
            enemy_spawn_timer: Timer::from_millis(interval, TimerMode::Repeating),
            finish_timer: Timer::from_millis(TRANSITION_RATE, TimerMode::Once),
            game_over_timer: Timer::from_millis(TRANSITION_RATE, TimerMode::Once),
            preparation_state: PREPARATION_COUNT,
            preparation_timer: Timer::from_millis(PREPARATION_TICK, TimerMode::Once),
            wave_timer: Timer::from_millis(WAVE_RATE, TimerMode::Once),
        }
    }
}

/// The transition event one tick of the current wave sub-state's timer
/// yields: the completion and game-over delays fire the shop and menu
/// transitions, the countdown fires the wave start once its display has
/// reached zero, and the wave timer fires completion.
pub open spec fn spec_wave_event(c: WaveController, w: WaveState, dt: int) -> Option<RunEvent> {
    match w {
        WaveState::Complete => if c.finish_timer.spec_tick(dt).fired >= 1 {
            Some(RunEvent::FinishDelayDone)
        } else {
            None
        },
        WaveState::GameOver => if c.game_over_timer.spec_tick(dt).fired >= 1 {
            Some(RunEvent::GameOverDelayDone)
        } else {
            None
        },
        WaveState::Preparation => if c.preparation_timer.spec_tick(dt).fired >= 1
            && c.preparation_state == 0 {
            Some(RunEvent::PreparationDone)
        } else {
            None
        },
        WaveState::Running => if c.wave_timer.spec_tick(dt).fired >= 1 {
            Some(RunEvent::WaveTimeUp)
        } else {
            None
        },
    }
}

/// Tick the timer relevant to the current wave sub-state and emit the
/// transition it calls for.
///
/// Preparation: its one-second timer counts the display down from 3; when
/// it fires at 0 the wave starts (and the wave timer is re-armed with the
/// wave length).  Running: the wave timer runs out into completion, and the
/// completion delay is re-armed.  Complete and GameOver: their delay timers
/// fire the shop and menu transitions respectively.
pub fn wave_timer_tick(ctrl: &mut WaveController, wave_state: WaveState, dt: u64) -> (ev: Option<
    RunEvent,
>)
    requires
        old(ctrl).wf(),
        dt <= DT_LIMIT,
    ensures
        final(ctrl).wf(),
        ev == spec_wave_event(*old(ctrl), wave_state, dt as int),
        wave_state == WaveState::Complete ==> ({
            let t1 = old(ctrl).finish_timer.spec_tick(dt as int);
            &&& *final(ctrl) == (WaveController { finish_timer: t1, ..*old(ctrl) })
            &&& ev == if t1.fired >= 1 {
                Some(RunEvent::FinishDelayDone)
            } else {
                None::<RunEvent>
            }
        }),
        wave_state == WaveState::GameOver ==> ({
            let t1 = old(ctrl).game_over_timer.spec_tick(dt as int);
            &&& *final(ctrl) == (WaveController { game_over_timer: t1, ..*old(ctrl) })
            &&& ev == if t1.fired >= 1 {
                Some(RunEvent::GameOverDelayDone)
            } else {
                None::<RunEvent>
            }
        }),
        wave_state == WaveState::Preparation ==> ({
            let t1 = old(ctrl).preparation_timer.spec_tick(dt as int);
            if t1.fired >= 1 {
                if old(ctrl).preparation_state > 0 {
                    &&& *final(ctrl) == (WaveController {
                        preparation_state: (old(ctrl).preparation_state - 1) as u32,
                        preparation_timer: Timer { elapsed: 0, fired: 0, ..t1 },
                        ..*old(ctrl)
                    })
                    &&& ev is None
                } else {
                    &&& *final(ctrl) == (WaveController {
                        preparation_timer: t1,
                        wave_timer: Timer {
                            duration: WAVE_RATE,
                            elapsed: 0,
                            fired: 0,
                            ..old(ctrl).wave_timer
                        },
                        ..*old(ctrl)
                    })
                    &&& ev == Some(RunEvent::PreparationDone)
                }
            } else {
                &&& *final(ctrl) == (WaveController { preparation_timer: t1, ..*old(ctrl) })
                &&& ev is None
            }
        }),
        wave_state == WaveState::Running ==> ({
            let t1 = old(ctrl).wave_timer.spec_tick(dt as int);
            if t1.fired >= 1 {
                &&& *final(ctrl) == (WaveController {
                    wave_timer: t1,
                    finish_timer: Timer { elapsed: 0, fired: 0, ..old(ctrl).finish_timer },
                    ..*old(ctrl)
                })
                &&& ev == Some(RunEvent::WaveTimeUp)
            } else {
                &&& *final(ctrl) == (WaveController { wave_timer: t1, ..*old(ctrl) })
                &&& ev is None
            }
        }),
{
    match wave_state {
        WaveState::Complete => {
            ctrl.finish_timer.tick(dt);
            if ctrl.finish_timer.just_finished() {
                Some(RunEvent::FinishDelayDone)
            } else {
                None
            }
        },
        WaveState::GameOver => {
            ctrl.game_over_timer.tick(dt);
            if ctrl.game_over_timer.just_finished() {
                Some(RunEvent::GameOverDelayDone)
            } else {
                None
            }
        },
        WaveState::Preparation => {
            ctrl.preparation_timer.tick(dt);
            if ctrl.preparation_timer.just_finished() {
                if ctrl.preparation_state > 0 {
                    ctrl.preparation_state = ctrl.preparation_state - 1;
                    ctrl.preparation_timer.reset();
                    None
                } else {
                    ctrl.wave_timer.reset();
                    ctrl.wave_timer.set_duration(WAVE_RATE);
                    Some(RunEvent::PreparationDone)
                }
            } else {
                None
            }
        },
        WaveState::Running => {
            ctrl.wave_timer.tick(dt);
            if ctrl.wave_timer.just_finished() {
                ctrl.finish_timer.reset();
                Some(RunEvent::WaveTimeUp)
            } else {
                None
            }
        },
    }
}

/// Half-width of the playable rectangle, in millipixels: half the 48-tile
/// arena width (16-pixel tiles) less 1.4 player radii.
pub const PLAYABLE_HALF_X: i64 = 361_600;

/// Half-height of the playable rectangle, in millipixels: half the 24-tile
/// arena height less 1.4 player radii.
pub const PLAYABLE_HALF_Y: i64 = 169_600;

/// Exclusive bound of the enemy spawn quadrant, in millipixels: half the
/// arena, in pixels, per axis.
pub const SPAWN_BOUND_X: i64 = 384_000;

/// Exclusive bound of the enemy spawn quadrant (vertical), in millipixels.
pub const SPAWN_BOUND_Y: i64 = 192_000;

/// The arena: the playable rectangle that kills the player at its edge, and
/// the quadrant enemies spawn in.
#[derive(Clone, Copy, Debug, PartialEq, Eq, Structural)]
pub struct Arena {
    pub playable: Aabb,
    pub spawn_bound: Vec2I,
}

impl Arena {
    pub open spec fn wf(self) -> bool {
        &&& self.playable.wf()
        &&& 1 <= self.spawn_bound.x <= POS_LIMIT
        &&& 1 <= self.spawn_bound.y <= POS_LIMIT
    }

    /// The standard arena, centered on the origin.
    pub fn new() -> (r: Arena)
        ensures
            r.playable == (Aabb {
                center: Vec2I::spec_zero(),
                half: Vec2I { x: PLAYABLE_HALF_X, y: PLAYABLE_HALF_Y },
            }),
            r.spawn_bound == (Vec2I { x: SPAWN_BOUND_X, y: SPAWN_BOUND_Y }),
            r.wf(),
    {
        Arena {
            playable: Aabb {
                center: Vec2I::zero(),
                half: Vec2I { x: PLAYABLE_HALF_X, y: PLAYABLE_HALF_Y },
            },
            spawn_bound: Vec2I { x: SPAWN_BOUND_X, y: SPAWN_BOUND_Y },
        }
    }
}

impl Default for Arena {
    fn default() -> (r: Self)
        ensures
            r.playable == (Aabb {
                center: Vec2I::spec_zero(),
                half: Vec2I { x: PLAYABLE_HALF_X, y: PLAYABLE_HALF_Y },
            }),
            r.spawn_bound == (Vec2I { x: SPAWN_BOUND_X, y: SPAWN_BOUND_Y }),
            r.wf(),
    {
        Arena::new()
    }
}

/// What the hard boundary rule makes of the player: one whose bounding
/// circle no longer overlaps the playable rectangle dies regardless of
/// health.
pub open spec fn spec_boundary_checked(p: Player, arena: Arena) -> Player {
    Player {
        player_state: if !spec_circle_aabb_intersect(
            Circle { center: p.pos, radius: PLAYER_SIZE },
            arena.playable,
        ) {
            PlayerState::Dead
        } else {
            p.player_state
        },
        ..p
    }
}

/// The hard boundary rule, exactly `spec_boundary_checked`.
pub fn boundary_collision(player: &mut Player, arena: &Arena)
    requires
        old(player).wf(),
        arena.wf(),
    ensures
        final(player).wf(),
        *final(player) == spec_boundary_checked(*old(player), *arena),
{
    let volume: Circle = player.volume();
    if !crate::collision::circle_aabb_intersect(&volume, &arena.playable) {
        player.player_state = PlayerState::Dead;
    }
}

/// A uniformly random position in the spawn quadrant.  Whatever the
/// generator returns, the position lies inside the quadrant and the world.
pub fn spawn_position(rng: &mut rand::rngs::StdRng, arena: &Arena) -> (p: Vec2I)
    requires
        arena.wf(),
    ensures
        0 <= p.x < arena.spawn_bound.x,
        0 <= p.y < arena.spawn_bound.y,
        p.in_world(),
{
    let x: u64 = rng_below(rng, arena.spawn_bound.x as u64);
    let y: u64 = rng_below(rng, arena.spawn_bound.y as u64);
    Vec2I { x: x as i64, y: y as i64 }
}

} // verus!
