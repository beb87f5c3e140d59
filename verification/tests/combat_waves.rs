use keep_moving::{
    player_hit, resolve_weapon_hits, wave_timer_tick, weapon_hit, Enemy, EnemyState, Player,
    PlayerState, RunEvent, Timer, TimerMode, Vec2I, WaveController, WaveState, Weapon,
};

fn active_enemy(id: u64, x: i64, y: i64) -> Enemy {
    let mut e = Enemy::spawn(id, Vec2I { x, y });
    e.enemy_state = EnemyState::Active;
    e
}

#[test]
fn projectile_hit_damages_exactly_once_and_is_removed() {
    // Projectile circle (r = 4 px) touches the enemy circle (r = 8 px):
    // centers 10 px apart, radii sum 12 px.
    let w = Weapon::spawn(Vec2I { x: 0, y: 0 }, 0);
    let mut weapons = vec![w];
    let mut enemies = vec![active_enemy(0, 10_000, 0)];
    resolve_weapon_hits(&mut weapons, &mut enemies);
    assert_eq!(weapons.len(), 0);
    assert_eq!(enemies.len(), 1);
    assert_eq!(enemies[0].health.current, 3);
}

#[test]
fn projectile_hits_only_first_enemy_no_piercing() {
    let w = Weapon::spawn(Vec2I { x: 0, y: 0 }, 0);
    let mut enemies = vec![active_enemy(0, 5_000, 0), active_enemy(1, -5_000, 0)];
    let hit = weapon_hit(&w, &mut enemies);
    assert!(hit);
    assert_eq!(enemies[0].health.current, 3);
    assert_eq!(enemies[1].health.current, 5);
}

#[test]
fn projectile_misses_out_of_range_and_dead_enemies() {
    let w = Weapon::spawn(Vec2I { x: 0, y: 0 }, 0);
    let mut far = vec![active_enemy(0, 50_000, 0)];
    assert!(!weapon_hit(&w, &mut far));
    assert_eq!(far[0].health.current, 5);

    let mut dead = active_enemy(1, 5_000, 0);
    dead.enemy_state = EnemyState::Dead;
    let mut bodies = vec![dead];
    assert!(!weapon_hit(&w, &mut bodies));
    assert_eq!(bodies[0].health.current, 5);
}

#[test]
fn two_projectiles_resolve_in_order() {
    let w1 = Weapon::spawn(Vec2I { x: 0, y: 0 }, 0);
    let w2 = Weapon::spawn(Vec2I { x: 0, y: 0 }, 0);
    let mut weapons = vec![w1, w2];
    let mut enemies = vec![active_enemy(0, 10_000, 0)];
    resolve_weapon_hits(&mut weapons, &mut enemies);
    assert_eq!(weapons.len(), 0);
    assert_eq!(enemies[0].health.current, 1);
}

#[test]
fn overlapping_enemies_hit_player_once_per_tick() {
    // Two enemies with damage 2 each overlap a player at health 10: one
    // tick's combat resolution leaves 8, not 6.
    let mut p = Player::spawn();
    let enemies = vec![active_enemy(0, 10_000, 0), active_enemy(1, -10_000, 0)];
    player_hit(&mut p, &enemies);
    assert_eq!(p.health.current, 8);
    assert_eq!(p.player_state, PlayerState::Invincible);
    // Further resolution during the invincibility window is debounced.
    player_hit(&mut p, &enemies);
    assert_eq!(p.health.current, 8);
}

#[test]
fn player_untouched_without_overlap() {
    let mut p = Player::spawn();
    let enemies = vec![active_enemy(0, 100_000, 0)];
    player_hit(&mut p, &enemies);
    assert_eq!(p.health.current, 10);
    assert_eq!(p.player_state, PlayerState::Normal);
}

#[test]
fn wave_scaling_amount_and_interval() {
    let c0 = WaveController::from_level(0);
    assert_eq!(c0.enemy_spawn_amount, 1);
    assert_eq!(c0.enemy_spawn_timer.duration, 5_000);
    assert_eq!(c0.enemy_spawn_timer.mode, TimerMode::Repeating);

    let c4 = WaveController::from_level(4);
    assert_eq!(c4.enemy_spawn_amount, 3);
    assert_eq!(c4.enemy_spawn_timer.duration, 3_000);
}

#[test]
fn spawn_interval_clamps_to_positive_floor() {
    assert_eq!(WaveController::from_level(9).enemy_spawn_timer.duration, 500);
    for level in [10u32, 11, 100, 10_000] {
        let c = WaveController::from_level(level);
        assert_eq!(c.enemy_spawn_timer.duration, 500);
    }
}

#[test]
fn fresh_controller_timers() {
    let c = WaveController::from_level(0);
    assert_eq!(c.preparation_state, 3);
    assert_eq!(c.preparation_timer.duration, 1_000);
    assert_eq!(c.wave_timer.duration, 15_000);
    assert_eq!(c.finish_timer.duration, 3_000);
    assert_eq!(c.game_over_timer.duration, 3_000);
}

#[test]
fn preparation_counts_down_then_starts_wave() {
    let mut c = WaveController::from_level(0);
    // Three one-second firings count the display 3 -> 2 -> 1 -> 0.
    for expected in [2u32, 1, 0] {
        let ev = wave_timer_tick(&mut c, WaveState::Preparation, 1_000);
        assert_eq!(ev, None);
        assert_eq!(c.preparation_state, expected);
    }
    // The fourth firing, at 0, starts the wave.
    let ev = wave_timer_tick(&mut c, WaveState::Preparation, 1_000);
    assert_eq!(ev, Some(RunEvent::PreparationDone));
    assert_eq!(c.wave_timer.elapsed, 0);
    assert_eq!(c.wave_timer.duration, 15_000);
}

#[test]
fn running_wave_completes_when_time_is_up() {
    let mut c = WaveController::from_level(0);
    let ev = wave_timer_tick(&mut c, WaveState::Running, 14_999);
    assert_eq!(ev, None);
    let ev = wave_timer_tick(&mut c, WaveState::Running, 1);
    assert_eq!(ev, Some(RunEvent::WaveTimeUp));
    assert_eq!(c.finish_timer.elapsed, 0);
}

#[test]
fn completion_and_game_over_delays() {
    let mut c = WaveController::from_level(0);
    assert_eq!(wave_timer_tick(&mut c, WaveState::Complete, 2_999), None);
    assert_eq!(
        wave_timer_tick(&mut c, WaveState::Complete, 1),
        Some(RunEvent::FinishDelayDone)
    );

    let mut c2 = WaveController::from_level(0);
    assert_eq!(wave_timer_tick(&mut c2, WaveState::GameOver, 2_999), None);
    assert_eq!(
        wave_timer_tick(&mut c2, WaveState::GameOver, 1),
        Some(RunEvent::GameOverDelayDone)
    );
}

#[test]
fn damaged_enemy_health_saturates() {
    let w = Weapon::spawn(Vec2I { x: 0, y: 0 }, 0);
    let mut enemies = vec![active_enemy(0, 0, 0)];
    for _ in 0..5 {
        weapon_hit(&w, &mut enemies);
    }
    assert_eq!(enemies[0].health.current, 0);
    assert_eq!(enemies[0].health.max, 5);
}

#[test]
fn once_timer_survives_reuse_via_reset() {
    let mut t = Timer::from_millis(250, TimerMode::Once);
    t.tick(250);
    assert!(t.just_finished());
    t.reset();
    assert!(!t.finished());
    t.tick(250);
    assert!(t.just_finished());
}
