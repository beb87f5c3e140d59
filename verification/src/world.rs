//! The single-tick scheduler: one `Game` value owns the run state, the wave
//! controller, the entity registry and the random generator, and `tick`
//! runs every system once per frame in a fixed order.
//!
//! Within one tick: state-machine timers fire first; then, while combat is
//! live, spawning, steering, movement, the boundary rule, enemy behavior,
//! the defender, projectile flight, combat resolution, and finally the
//! death bookkeeping — so death decisions are computed from a consistent
//! health snapshot before any despawn of the same tick.  While paused, the
//! whole simulation is suspended.

use vstd::prelude::*;
use crate::action::Input;
use crate::combat::{lemma_resolve_keeps_ids, player_hit, resolve_weapon_hits};
use crate::defender::{defender_action, spec_tick_all_weapons, Defender, Weapon};
use crate::enemy::{spec_step_all, Enemy};
use crate::math::{Vec2I, DT_LIMIT};
use crate::player::Player;
use crate::registry::{
    spec_enemies_wf, spec_id_present, spec_ids_unique, spec_weapons_wf, Registry,
};
use crate::state::{
    spec_effects, spec_transition, transition, AppState, Effect, GameState, PauseState, RunEvent,
    RunState, WaveState,
};
use crate::wave::{boundary_collision, spawn_position, wave_timer_tick, Arena, WaveController};

verus! {

/// One whole tick of the enemy set: per-enemy behavior and movement, then
/// iteration-safe removal of the bodies whose death timers fired.  Every
/// surviving enemy keeps an identity that was already present.
pub fn enemies_tick(enemies: &mut Vec<Enemy>, player_pos: Vec2I, dt: u64)
    requires
        spec_enemies_wf(old(enemies)@),
        spec_ids_unique(old(enemies)@),
        player_pos.in_world(),
        dt <= DT_LIMIT,
    ensures
        final(enemies)@ == spec_step_all(old(enemies)@, player_pos, dt as int),
        spec_enemies_wf(final(enemies)@),
        spec_ids_unique(final(enemies)@),
        forall|k: int|
            0 <= k < final(enemies)@.len() ==> spec_id_present(old(enemies)@, (
            #[trigger] final(enemies)@[k]).id),
{
    let ghost es0: Seq<Enemy> = enemies@;
    let mut out: Vec<Enemy> = Vec::new();
    let ghost mut src: Seq<int> = Seq::empty();
    proof {
        assert(es0.take(0) =~= Seq::<Enemy>::empty());
    }
    let mut i: usize = 0;
    while i < enemies.len()
        invariant
            i <= es0.len(),
            enemies@ == es0,
            spec_enemies_wf(es0),
            spec_ids_unique(es0),
            player_pos.in_world(),
            dt <= DT_LIMIT,
            out@ == spec_step_all(es0.take(i as int), player_pos, dt as int),
            spec_enemies_wf(out@),
            src.len() == out@.len(),
            forall|k: int| 0 <= k < src.len() ==> 0 <= #[trigger] src[k] < i,
            forall|k: int, l: int|
                #![trigger src[k], src[l]]
                0 <= k < l < src.len() ==> src[k] < src[l],
            forall|k: int| 0 <= k < src.len() ==> (#[trigger] out@[k]).id == es0[src[k]].id,
        decreases es0.len() - i,
    {
        let mut e: Enemy = enemies[i];
        let despawn: bool = e.behavior(player_pos, dt);
        proof {
            assert(es0.take(i as int + 1).drop_last() =~= es0.take(i as int));
            assert(es0.take(i as int + 1).last() == es0[i as int]);
            let sb = es0[i as int].spec_behavior_stepped(player_pos, dt as int);
            assert(sb.spec_moved(dt as int).enemy_state == sb.enemy_state);
            assert(sb.spec_moved(dt as int).death_timer == sb.death_timer);
        }
        if !despawn {
            e.movement(dt);
            proof {
                assert(e == es0[i as int].spec_step(player_pos, dt as int));
            }
            out.push(e);
            proof {
                src = src.push(i as int);
            }
        }
        i = i + 1;
    }
    proof {
        assert(es0.take(es0.len() as int) =~= es0);
        assert forall|k: int, l: int| 0 <= k < l < out@.len() implies (out@[k]).id != (
        out@[l]).id by {
            assert(src[k] < src[l]);
            assert(es0[src[k]].id != es0[src[l]].id);
        }
        assert forall|k: int| 0 <= k < out@.len() implies spec_id_present(es0, out@[k].id) by {
            assert(0 <= src[k] < es0.len() && es0[src[k]].id == out@[k].id);
        }
    }
    *enemies = out;
}

/// One whole tick of the projectile set: homing flight (stale targets
/// despawn at once), then the lifetime timers, with iteration-safe removal.
pub fn weapons_tick(weapons: &mut Vec<Weapon>, enemies: &Vec<Enemy>, dt: u64)
    requires
        spec_weapons_wf(old(weapons)@),
        spec_enemies_wf(enemies@),
        dt <= DT_LIMIT,
    ensures
        final(weapons)@ == spec_tick_all_weapons(old(weapons)@, enemies@, dt as int),
        spec_weapons_wf(final(weapons)@),
{
    let ghost ws0: Seq<Weapon> = weapons@;
    let mut out: Vec<Weapon> = Vec::new();
    proof {
        assert(ws0.take(0) =~= Seq::<Weapon>::empty());
    }
    let mut i: usize = 0;
    while i < weapons.len()
        invariant
            i <= ws0.len(),
            weapons@ == ws0,
            spec_weapons_wf(ws0),
            spec_enemies_wf(enemies@),
            dt <= DT_LIMIT,
            out@ == spec_tick_all_weapons(ws0.take(i as int), enemies@, dt as int),
            spec_weapons_wf(out@),
        decreases ws0.len() - i,
    {
        let mut w: Weapon = weapons[i];
        let stale: bool = w.movement(enemies, dt);
        proof {
            assert(ws0.take(i as int + 1).drop_last() =~= ws0.take(i as int));
            assert(ws0.take(i as int + 1).last() == ws0[i as int]);
        }
        if !stale {
            let expired: bool = w.expire(dt);
            if !expired {
                out.push(w);
            }
        }
        i = i + 1;
    }
    proof {
        assert(ws0.take(ws0.len() as int) =~= ws0);
    }
    *weapons = out;
}

/// Death bookkeeping over the whole enemy set: every enemy whose health
/// was observed at zero turns `Dead`; nothing else changes.
pub fn enemies_update_death(enemies: &mut Vec<Enemy>)
    requires
        spec_enemies_wf(old(enemies)@),
    ensures
        final(enemies)@ == old(enemies)@.map_values(|e: Enemy| e.spec_death_updated()),
        final(enemies)@.len() == old(enemies)@.len(),
        forall|k: int|
            0 <= k < old(enemies)@.len() ==> final(enemies)@[k] == (#[trigger] old(
                enemies,
            )@[k]).spec_death_updated(),
        spec_enemies_wf(final(enemies)@),
        spec_ids_unique(old(enemies)@) ==> spec_ids_unique(final(enemies)@),
{
    let ghost es0: Seq<Enemy> = enemies@;
    let mut i: usize = 0;
    while i < enemies.len()
        invariant
            i <= es0.len(),
            enemies@.len() == es0.len(),
            spec_enemies_wf(enemies@),
            forall|k: int| i <= k < es0.len() ==> enemies@[k] == es0[k],
            forall|k: int| 0 <= k < i ==> enemies@[k] == (#[trigger] es0[k]).spec_death_updated(),
        decreases es0.len() - i,
    {
        let mut e: Enemy = enemies[i];
        e.update_death();
        enemies[i] = e;
        i = i + 1;
    }
    proof {
        assert forall|k: int| 0 <= k < es0.len() implies (#[trigger] enemies@[k]).id
            == es0[k].id by {}
        assert(enemies@ =~= es0.map_values(|e: Enemy| e.spec_death_updated()));
    }
}

/// One spawn-cadence tick: the repeating spawn timer runs, and each time it
/// wraps one burst of enemies appears at uniformly random positions in the
/// spawn quadrant, each under a fresh identity.
pub fn spawn_enemies(
    ctrl: &mut WaveController,
    registry: &mut Registry,
    rng: &mut rand::rngs::StdRng,
    arena: &Arena,
    dt: u64,
)
    requires
        old(ctrl).wf(),
        old(registry).wf(),
        arena.wf(),
        dt <= DT_LIMIT,
    ensures
        final(ctrl).wf(),
        *final(ctrl) == (WaveController {
            enemy_spawn_timer: old(ctrl).enemy_spawn_timer.spec_tick(dt as int),
            ..*old(ctrl)
        }),
        final(registry).wf(),
        final(registry).player == old(registry).player,
        final(registry).defender == old(registry).defender,
        final(registry).weapons == old(registry).weapons,
        final(registry).next_id == old(registry).next_id + (final(registry).enemies@.len()
            - old(registry).enemies@.len()),
        final(registry).enemies@.len() >= old(registry).enemies@.len(),
        final(ctrl).enemy_spawn_timer.fired == 0 ==> final(registry).enemies@ == old(
            registry).enemies@ && final(registry).next_id == old(registry).next_id,
        final(ctrl).enemy_spawn_timer.fired >= 1 ==> ({
            let es0 = old(registry).enemies@;
            let es1 = final(registry).enemies@;
            let amount = old(ctrl).enemy_spawn_amount as int;
            &&& es0.len() <= es1.len() <= es0.len() + amount
            &&& (old(registry).next_id + amount <= u64::MAX ==> es1.len() == es0.len() + amount)
            &&& forall|k: int| 0 <= k < es0.len() ==> es1[k] == es0[k]
            &&& forall|k: int|
                es0.len() <= k < es1.len() ==> (#[trigger] es1[k]) == Enemy::spec_spawned(
                    es1[k].id, es1[k].pos) && 0 <= es1[k].pos.x < arena.spawn_bound.x && 0
                    <= es1[k].pos.y < arena.spawn_bound.y
        }),
{
    ctrl.enemy_spawn_timer.tick(dt);
    if ctrl.enemy_spawn_timer.just_finished() {
        let ghost es0: Seq<Enemy> = registry.enemies@;
        let ghost id0: u64 = registry.next_id;
        let amount: u32 = ctrl.enemy_spawn_amount;
        let mut n: u32 = 0;
        while n < amount
            invariant
                n <= amount,
                arena.wf(),
                registry.wf(),
                registry.player == old(registry).player,
                registry.defender == old(registry).defender,
                registry.weapons == old(registry).weapons,
                registry.next_id == id0 + (registry.enemies@.len() - es0.len()),
                es0.len() <= registry.enemies@.len() <= es0.len() + n,
                id0 + n <= u64::MAX ==> registry.enemies@.len() == es0.len() + n,
                forall|k: int| 0 <= k < es0.len() ==> registry.enemies@[k] == es0[k],
                forall|k: int|
                    es0.len() <= k < registry.enemies@.len() ==> (#[trigger] registry.enemies@[k])
                        == Enemy::spec_spawned(registry.enemies@[k].id, registry.enemies@[k].pos)
                        && 0 <= registry.enemies@[k].pos.x < arena.spawn_bound.x && 0
                        <= registry.enemies@[k].pos.y < arena.spawn_bound.y,
            decreases amount - n,
        {
            let pos: Vec2I = spawn_position(rng, arena);
            registry.spawn_enemy(pos);
            n = n + 1;
        }
    }
}

/// The whole simulation: run state, wave pacing, entities, randomness.
pub struct Game {
    pub state: RunState,
    pub controller: Option<WaveController>,
    pub registry: Registry,
    pub arena: Arena,
    pub rng: rand::rngs::StdRng,
}

/// Everything one frame of live combat does, as a relation between the
/// world before (`g0`, with its controller, player and defender present)
/// and the world after (`g1`), over the burst of enemies the spawn cadence
/// drew (`spawned`).  In order: the spawn timer advances and each wrap
/// admits one bounded burst of fresh enemies at drawn positions inside the
/// spawn quadrant; the player steers, moves and meets the hard boundary;
/// every enemy steps and expired bodies leave; the defender follows the
/// player and may fire at the nearest targetable enemy; projectiles fly
/// home or expire, then resolve against the enemies; contact damage hits
/// the player once; and the death bookkeeping closes the tick, reporting
/// in `game_over` whether the player's death delay elapsed.  Only the
/// generator's draw is free in this relation.
pub open spec fn spec_frame(
    g0: Game,
    g1: Game,
    input: Input,
    dt: int,
    spawned: Seq<Enemy>,
    game_over: bool,
) -> bool {
    let arena = g0.arena;
    let c0 = g0.controller->Some_0;
    let p0 = g0.registry.player->Some_0;
    let d0 = g0.registry.defender->Some_0;
    let t1 = c0.enemy_spawn_timer.spec_tick(dt);
    let es1 = g0.registry.enemies@ + spawned;
    let p1 = crate::wave::spec_boundary_checked(p0.spec_steered(input).spec_moved(dt), arena);
    let es2 = spec_step_all(es1, p1.pos, dt);
    let da = crate::defender::spec_defender_action(Defender { pos: p1.pos, ..d0 }, es2, dt);
    let ws1 = g0.registry.weapons@ + (match da.1 {
        Some(w) => seq![w],
        None => Seq::<Weapon>::empty(),
    });
    let ws2 = spec_tick_all_weapons(ws1, es2, dt);
    let rs = crate::combat::spec_resolve(ws2, es2);
    let pb = crate::combat::spec_player_hit(p1,
        rs.1).spec_death_checked().spec_invincibility_ticked(dt).spec_death_delay(dt);
    &&& (t1.fired == 0 ==> spawned.len() == 0)
    &&& (t1.fired >= 1 ==> {
        &&& spawned.len() <= c0.enemy_spawn_amount
        &&& (g0.registry.next_id + c0.enemy_spawn_amount <= u64::MAX ==> spawned.len()
            == c0.enemy_spawn_amount)
        &&& forall|k: int|
            0 <= k < spawned.len() ==> (#[trigger] spawned[k]) == Enemy::spec_spawned(
                spawned[k].id, spawned[k].pos) && 0 <= spawned[k].pos.x < arena.spawn_bound.x
                && 0 <= spawned[k].pos.y < arena.spawn_bound.y
    })
    &&& g1.state == g0.state
    &&& g1.arena == g0.arena
    &&& g1.controller == Some(WaveController { enemy_spawn_timer: t1, ..c0 })
    &&& g1.registry.next_id == g0.registry.next_id + spawned.len()
    &&& g1.registry.player == Some(pb.0)
    &&& g1.registry.defender == Some(da.0)
    &&& g1.registry.enemies@ == rs.1.map_values(|e: Enemy| e.spec_death_updated())
    &&& g1.registry.weapons@ == rs.0
    &&& game_over == pb.1
}

impl Game {
    /// The standing invariant of a run.
    ///
    /// A wave controller exists exactly while the wave screen is active;
    /// the player and their defender exist exactly while combat is live;
    /// and outside live combat no enemy or projectile survives — the run
    /// state alone decides which entities are present.
    pub open spec fn wf(self) -> bool {
        &&& self.registry.wf()
        &&& self.arena.wf()
        &&& match self.controller {
            Some(c) => c.wf(),
            None => true,
        }
        &&& (self.controller is Some) == self.state.spec_in_wave()
        &&& (self.registry.player is Some) == self.state.spec_in_wave_running()
        &&& (self.registry.defender is Some) == self.state.spec_in_wave_running()
        &&& !self.state.spec_in_wave_running() ==> self.registry.enemies@.len() == 0
            && self.registry.weapons@.len() == 0
    }

    /// A fresh run: loading screen, empty registry, generator seeded once.
    pub fn new(seed: u64) -> (g: Game)
        ensures
            g.wf(),
            g.state == RunState::spec_initial(),
            g.controller is None,
            g.registry.spec_wave_empty(),
            g.registry.next_id == 0,
    {
        Game {
            state: RunState::initial(),
            controller: None,
            registry: Registry::new(),
            arena: Arena::new(),
            rng: crate::rng::rng_from_seed(seed),
        }
    }

    /// Apply one run-state event: the state moves along the transition
    /// relation, the presentation cues for the change are returned, and
    /// entity scoping follows — entering the wave screen creates the
    /// controller for the new level, entering live combat spawns the player
    /// and their defender, and leaving live combat despawns every
    /// wave-scoped entity.
    pub fn apply_event(&mut self, ev: RunEvent) -> (effects: Vec<Effect>)
        requires
            old(self).wf(),
        ensures
            final(self).wf(),
            final(self).state == spec_transition(old(self).state, ev),
            effects@ == spec_effects(old(self).state, spec_transition(old(self).state, ev)),
            final(self).arena == old(self).arena,
            final(self).registry.next_id == old(self).registry.next_id,
            ({
                let a = old(self).state;
                let b = spec_transition(a, ev);
                &&& final(self).controller == (if b.spec_in_wave() {
                    if a.spec_in_wave() {
                        old(self).controller
                    } else {
                        Some(WaveController::spec_from_level(b.level))
                    }
                } else {
                    None::<WaveController>
                })
                &&& (b.spec_in_wave_running() && !a.spec_in_wave_running()) ==> {
                    &&& final(self).registry.player == Some(Player::spec_spawned())
                    &&& final(self).registry.defender == Some(Defender::spec_spawned(
                        Vec2I::spec_zero()))
                    &&& final(self).registry.enemies@ == old(self).registry.enemies@
                    &&& final(self).registry.weapons@ == old(self).registry.weapons@
                }
                &&& (!b.spec_in_wave_running() && a.spec_in_wave_running()) ==> final(
                    self).registry.spec_wave_empty()
                &&& (b.spec_in_wave_running() == a.spec_in_wave_running()) ==> {
                    &&& final(self).registry.player == old(self).registry.player
                    &&& final(self).registry.defender == old(self).registry.defender
                    &&& final(self).registry.enemies@ == old(self).registry.enemies@
                    &&& final(self).registry.weapons@ == old(self).registry.weapons@
                }
            }),
    {
        let was_in_wave: bool = self.state.in_wave();
        let was_running: bool = self.state.in_wave_running();
        let (next, effects): (RunState, Vec<Effect>) = transition(self.state, ev);
        self.state = next;
        let now_in_wave: bool = self.state.in_wave();
        let now_running: bool = self.state.in_wave_running();
        if now_in_wave && !was_in_wave {
            self.controller = Some(WaveController::from_level(self.state.level));
        }
        if !now_in_wave && was_in_wave {
            self.controller = None;
        }
        if now_running && !was_running {
            let p: Player = Player::spawn();
            self.registry.defender = Some(Defender::spawn(p.pos));
            self.registry.player = Some(p);
        }
        if !now_running && was_running {
            self.registry.clear_wave_entities();
        }
        effects
    }

    /// One frame of live combat, in the fixed system order; reports whether
    /// the player's death delay elapsed this frame.
    fn wave_running_frame(&mut self, input: &Input, dt: u64) -> (game_over: bool)
        requires
            old(self).wf(),
            old(self).state.spec_in_wave_running(),
            dt <= DT_LIMIT,
        ensures
            final(self).wf(),
            final(self).state == old(self).state,
            final(self).arena == old(self).arena,
            final(self).registry.next_id >= old(self).registry.next_id,
            // Of the controller, a combat frame only advances the spawn
            // cadence; the wave-state timers belong to `wave_timer_tick`.
            old(self).controller is Some && old(self).registry.player is Some ==> final(
                self).controller == Some(WaveController {
                enemy_spawn_timer: old(
                    self,
                ).controller->Some_0.enemy_spawn_timer.spec_tick(dt as int),
                ..old(self).controller->Some_0
            }),
            // Death is terminal for the run: a frame never revives.
            (match (old(self).registry.player, final(self).registry.player) {
                (Some(p0), Some(p1)) => p0.player_state == crate::player::PlayerState::Dead
                    ==> p1.player_state == crate::player::PlayerState::Dead,
                _ => true,
            }),
            // The whole frame, pinned: the world after is related to the
            // world before by the composition of the per-system specs,
            // with only the spawn burst's drawn positions free.
            exists|spawned: Seq<Enemy>|
                spec_frame(*old(self), *final(self), *input, dt as int, spawned, game_over),
    {
        let ghost g0: Game = *old(self);
        let mut ctrl: WaveController = self.controller.unwrap();
        let mut p: Player = self.registry.player.unwrap();
        // Spawn cadence.
        spawn_enemies(&mut ctrl, &mut self.registry, &mut self.rng, &self.arena, dt);
        self.controller = Some(ctrl);
        let ghost spawned: Seq<Enemy> = self.registry.enemies@.skip(
            g0.registry.enemies@.len() as int,
        );
        proof {
            assert(self.registry.enemies@ =~= g0.registry.enemies@ + spawned);
            if ctrl.enemy_spawn_timer.fired >= 1 {
                assert forall|k: int|
                    0 <= k < spawned.len() implies ({
                        let e = #[trigger] spawned[k];
                        e == Enemy::spec_spawned(e.id, e.pos) && 0 <= e.pos.x
                            < self.arena.spawn_bound.x && 0 <= e.pos.y < self.arena.spawn_bound.y
                    }) by {
                    assert(spawned[k] == self.registry.enemies@[g0.registry.enemies@.len() + k]);
                }
            }
        }
        // Player steering, movement and the hard boundary.
        p.steer(input);
        p.movement(dt);
        boundary_collision(&mut p, &self.arena);
        // Enemy behavior and movement, expired bodies removed.
        let ghost es_pre: Seq<Enemy> = self.registry.enemies@;
        enemies_tick(&mut self.registry.enemies, p.pos, dt);
        proof {
            assert forall|k: int| 0 <= k < self.registry.enemies@.len() implies (
            #[trigger] self.registry.enemies@[k]).id < self.registry.next_id by {
                assert(spec_id_present(es_pre, self.registry.enemies@[k].id));
                let j = choose|j: int|
                    0 <= j < es_pre.len() && es_pre[j].id == self.registry.enemies@[k].id;
                assert(es_pre[j].id < self.registry.next_id);
            }
            assert(self.registry.wf());
        }
        // The defender rides along and may fire at the nearest enemy.
        let mut d2: Defender = self.registry.defender.unwrap();
        d2.follow(p.pos);
        let shot: Option<Weapon> = defender_action(&mut d2, &self.registry.enemies, dt);
        let ghost ws_before: Seq<Weapon> = self.registry.weapons@;
        match shot {
            Some(w) => {
                self.registry.weapons.push(w);
                proof {
                    assert(spec_weapons_wf(self.registry.weapons@));
                    assert(self.registry.weapons@ =~= ws_before + seq![w]);
                }
            },
            None => {
                proof {
                    assert(self.registry.weapons@ =~= ws_before + Seq::<Weapon>::empty());
                }
            },
        }
        self.registry.defender = Some(d2);
        // Projectile flight and lifetime.
        weapons_tick(&mut self.registry.weapons, &self.registry.enemies, dt);
        // Combat resolution, from a consistent health snapshot.
        let ghost es_mid: Seq<Enemy> = self.registry.enemies@;
        proof {
            lemma_resolve_keeps_ids(self.registry.weapons@, self.registry.enemies@);
        }
        resolve_weapon_hits(&mut self.registry.weapons, &mut self.registry.enemies);
        proof {
            assert forall|k: int| 0 <= k < self.registry.enemies@.len() implies (
            #[trigger] self.registry.enemies@[k]).id < self.registry.next_id by {
                assert(self.registry.enemies@[k].id == es_mid[k].id);
            }
            let ghost es_now: Seq<Enemy> = self.registry.enemies@;
            assert forall|k: int, l: int|
                0 <= k < l < es_now.len() implies (#[trigger] es_now[k]).id != (
            #[trigger] es_now[l]).id by {
                assert(es_now[k].id == es_mid[k].id);
                assert(es_now[l].id == es_mid[l].id);
            }
            assert(self.registry.wf());
        }
        player_hit(&mut p, &self.registry.enemies);
        // Death bookkeeping, after all damage of this tick is applied.
        let ghost es_late: Seq<Enemy> = self.registry.enemies@;
        enemies_update_death(&mut self.registry.enemies);
        proof {
            assert forall|k: int| 0 <= k < self.registry.enemies@.len() implies (
            #[trigger] self.registry.enemies@[k]).id < self.registry.next_id by {
                assert(self.registry.enemies@[k].id == es_late[k].id);
            }
            assert(self.registry.wf());
        }
        p.update_death();
        p.update_invincibility(dt);
        let game_over: bool = p.update_death_timer(dt);
        self.registry.player = Some(p);
        proof {
            assert(spec_frame(g0, *self, *input, dt as int, spawned, game_over));
        }
        game_over
    }

    /// One tick of the whole run.
    ///
    /// Loading waits for the asset collaborator; the menu waits for the
    /// start intent; in the game, the pause toggle is handled first and a
    /// paused tick suspends the entire simulation; the shop immediately
    /// raises the level and starts the next wave; on the wave screen the
    /// wave-state timer may fire a transition, and while combat is live the
    /// full frame runs.  The returned cues are owed to the presentation
    /// collaborators.
    pub fn tick(&mut self, input: &Input, dt: u64) -> (effects: Vec<Effect>)
        requires
            old(self).wf(),
            dt <= DT_LIMIT,
        ensures
            final(self).wf(),
            final(self).arena == old(self).arena,
            old(self).state.spec_paused() && !input.close_menu ==> *final(self) == *old(self)
                && effects@ == Seq::<Effect>::empty(),
            old(self).state.spec_paused() && input.close_menu ==> final(self).state
                == spec_transition(old(self).state, RunEvent::PauseToggled) && effects@
                == spec_effects(old(self).state, spec_transition(old(self).state,
                RunEvent::PauseToggled)),
            old(self).state.app == AppState::Loading ==> final(self).state == (
            if input.assets_loaded {
                spec_transition(old(self).state, RunEvent::AssetsLoaded)
            } else {
                old(self).state
            }) && effects@ == spec_effects(old(self).state, final(self).state),
            old(self).state.app == AppState::Menu ==> final(self).state == (if input.confirm {
                spec_transition(old(self).state, RunEvent::StartPressed)
            } else {
                old(self).state
            }) && effects@ == spec_effects(old(self).state, final(self).state),
            old(self).state.app == AppState::Game && !old(self).state.spec_paused()
                && input.open_menu ==> final(self).state == spec_transition(old(self).state,
                RunEvent::PauseToggled) && effects@ == spec_effects(old(self).state,
                final(self).state),
            old(self).state.app == AppState::Game && old(self).state.game == GameState::Shop
                && !old(self).state.spec_paused() && !input.open_menu ==> final(self).state
                == spec_transition(old(self).state, RunEvent::ShopEntered) && effects@
                == spec_effects(old(self).state, final(self).state),
            old(self).state.spec_in_wave() && !old(self).state.spec_paused() && !input.open_menu
                ==> ({
                let ev = crate::wave::spec_wave_event(old(self).controller->Some_0,
                    old(self).state.wave, dt as int);
                let s1 = match ev {
                    Some(e) => spec_transition(old(self).state, e),
                    None => old(self).state,
                };
                // The state follows the wave timer's transition, except that
                // a frame of live combat may additionally end the run when
                // the player's death delay elapses; the returned cues are
                // exactly those owed for the transitions taken.
                &&& (final(self).state == s1 || (old(self).state.wave == WaveState::Running
                    && s1.wave == WaveState::Running && final(self).state == spec_transition(
                    s1, RunEvent::PlayerDied)))
                &&& effects@ == spec_effects(old(self).state, s1) + (if final(self).state
                    == s1 {
                    Seq::<Effect>::empty()
                } else {
                    spec_effects(s1, final(self).state)
                })
            }),
            // A tick that begins and ends in the running wave runs the whole
            // combat frame: the world moves along `spec_frame` from the
            // wave-timer-ticked world, and a reported game over then applies
            // the `PlayerDied` transition with its entity teardown.
            old(self).state.spec_in_wave_running() && !old(self).state.spec_paused()
                && !input.open_menu && old(self).controller->Some_0.wave_timer.spec_tick(
                dt as int).fired == 0 ==> exists|spawned: Seq<Enemy>, gm0: Game, gm: Game, go:
                bool|
                {
                    &&& gm0.state == old(self).state
                    &&& gm0.arena == old(self).arena
                    &&& gm0.registry == old(self).registry
                    &&& gm0.controller == Some(WaveController {
                        wave_timer: old(self).controller->Some_0.wave_timer.spec_tick(dt as int),
                        ..old(self).controller->Some_0
                    })
                    &&& gm.state == old(self).state
                    &&& #[trigger] spec_frame(gm0, gm, *input, dt as int, spawned, go)
                    &&& if go {
                        &&& final(self).state == spec_transition(old(self).state,
                            RunEvent::PlayerDied)
                        &&& final(self).registry.spec_wave_empty()
                        &&& final(self).controller == gm.controller
                        &&& final(self).registry.next_id == gm.registry.next_id
                    } else {
                        *final(self) == gm
                    }
                },
    {
        let mut effects: Vec<Effect> = Vec::new();
        match self.state.app {
            AppState::Loading => {
                if input.assets_loaded {
                    let mut more: Vec<Effect> = self.apply_event(RunEvent::AssetsLoaded);
                    effects.append(&mut more);
                    proof {
                        assert(effects@ =~= spec_effects(old(self).state, self.state));
                    }
                }
                effects
            },
            AppState::Menu => {
                if input.confirm {
                    let mut more: Vec<Effect> = self.apply_event(RunEvent::StartPressed);
                    effects.append(&mut more);
                    proof {
                        assert(effects@ =~= spec_effects(old(self).state, self.state));
                    }
                }
                effects
            },
            AppState::Game => {
                if matches!(self.state.pause, PauseState::Paused) {
                    if input.close_menu {
                        let mut more: Vec<Effect> = self.apply_event(RunEvent::PauseToggled);
                        effects.append(&mut more);
                        proof {
                            assert(effects@ =~= spec_effects(old(self).state, self.state));
                        }
                    }
                    return effects;
                }
                if input.open_menu {
                    let mut more: Vec<Effect> = self.apply_event(RunEvent::PauseToggled);
                    effects.append(&mut more);
                    proof {
                        assert(effects@ =~= spec_effects(old(self).state, self.state));
                    }
                    return effects;
                }
                if matches!(self.state.game, GameState::Shop) {
                    let mut more: Vec<Effect> = self.apply_event(RunEvent::ShopEntered);
                    effects.append(&mut more);
                    proof {
                        assert(effects@ =~= spec_effects(old(self).state, self.state));
                    }
                    return effects;
                }
                // On the wave screen: tick the wave-state timer first.
                let ghost s0: RunState = self.state;
                let was_running: bool = matches!(self.state.wave, WaveState::Running);
                let mut ctrl: WaveController = self.controller.unwrap();
                let ev: Option<RunEvent> = wave_timer_tick(&mut ctrl, self.state.wave, dt);
                self.controller = Some(ctrl);
                let ghost s1: RunState = (match ev {
                    Some(e) => spec_transition(s0, e),
                    None => s0,
                });
                match ev {
                    Some(e) => {
                        let mut more: Vec<Effect> = self.apply_event(e);
                        effects.append(&mut more);
                    },
                    None => {},
                }
                proof {
                    assert(effects@ =~= spec_effects(s0, s1));
                }
                // Live combat runs only on a tick that both began and ended
                // in the running wave, so a transition tick never moves a
                // half-set-up or half-torn-down world.
                if was_running && matches!(self.state.wave, WaveState::Running) {
                    let ghost gm0: Game = *self;
                    let game_over: bool = self.wave_running_frame(input, dt);
                    let ghost gm1: Game = *self;
                    if game_over {
                        let mut more: Vec<Effect> = self.apply_event(RunEvent::PlayerDied);
                        effects.append(&mut more);
                        proof {
                            assert(effects@ =~= spec_effects(s0, s1) + spec_effects(s1,
                                self.state));
                        }
                    } else {
                        proof {
                            assert(effects@ =~= spec_effects(s0, s1) + Seq::<Effect>::empty());
                        }
                    }
                    proof {
                        let sp = choose|s: Seq<Enemy>|
                            spec_frame(gm0, gm1, *input, dt as int, s, game_over);
                        let c0 = old(self).controller->Some_0;
                        if old(self).state.spec_in_wave_running()
                            && c0.wave_timer.spec_tick(dt as int).fired == 0 {
                            assert(gm0 == (Game {
                                controller: Some(WaveController {
                                    wave_timer: c0.wave_timer.spec_tick(dt as int),
                                    ..c0
                                }),
                                ..*old(self)
                            }));
                            assert(spec_frame(gm0, gm1, *input, dt as int, sp, game_over));
                        }
                    }
                } else {
                    proof {
                        assert(effects@ =~= spec_effects(s0, s1) + Seq::<Effect>::empty());
                    }
                }
                effects
            },
        }
    }
}

} // verus!
