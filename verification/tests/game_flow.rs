use keep_moving::{
    AppState, Banner, Effect, Enemy, EnemyState, Game, GameState, Input, PauseState, PlayerState,
    Vec2I, WaveState,
};
use rand::SeedableRng;

fn start_input() -> Input {
    Input::default()
}

/// Re-center and heal the player, as a stand-in for skilled play: the player
/// moves unconditionally and would otherwise drift over the boundary.
fn keep_player_safe(game: &mut Game) {
    if let Some(p) = game.registry.player.as_mut() {
        p.pos = Vec2I { x: 0, y: 0 };
        p.health.current = 10;
        p.player_state = PlayerState::Normal;
    }
}

/// Drive a fresh game from loading into the menu.
fn game_at_menu() -> Game {
    let mut game = Game::new(7);
    let mut input = start_input();
    input.assets_loaded = true;
    let effects = game.tick(&input, 16);
    assert_eq!(game.state.app, AppState::Menu);
    assert!(effects.contains(&Effect::ShowMenu));
    game
}

/// Drive a fresh game to the wave screen (preparation countdown).
fn game_at_preparation() -> Game {
    let mut game = game_at_menu();
    let mut input = start_input();
    input.confirm = true;
    let effects = game.tick(&input, 16);
    assert_eq!(game.state.app, AppState::Game);
    assert_eq!(game.state.game, GameState::Wave);
    assert_eq!(game.state.wave, WaveState::Preparation);
    assert!(effects.contains(&Effect::ClearMenu));
    assert!(effects.contains(&Effect::EnterWaveScreen));
    assert!(effects.contains(&Effect::ShowBanner(Banner::Preparation)));
    game
}

/// Drive a fresh game into live combat.
fn game_at_running() -> Game {
    let mut game = game_at_preparation();
    let input = start_input();
    for _ in 0..4 {
        game.tick(&input, 1_000);
    }
    assert_eq!(game.state.wave, WaveState::Running);
    game
}

#[test]
fn loading_waits_for_assets() {
    let mut game = Game::new(1);
    let input = start_input();
    game.tick(&input, 16);
    assert_eq!(game.state.app, AppState::Loading);
}

#[test]
fn menu_starts_game_on_confirm() {
    let game = game_at_preparation();
    // Entering the wave screen creates the wave controller for level 0.
    let ctrl = game.controller.as_ref().expect("controller exists on the wave screen");
    assert_eq!(ctrl.enemy_spawn_amount, 1);
    assert_eq!(ctrl.enemy_spawn_timer.duration, 5_000);
    // The player does not exist until the wave is running.
    assert!(!game.registry.has_player());
}

#[test]
fn entering_running_spawns_player_defender_and_controller() {
    let game = game_at_running();
    assert!(game.registry.has_player());
    assert!(game.registry.has_defender());
    assert!(game.controller.is_some());
}

#[test]
fn enemies_spawn_on_cadence() {
    let mut game = game_at_running();
    let input = start_input();
    // The first burst arrives once the five-second spawn interval wraps.
    for _ in 0..49 {
        keep_player_safe(&mut game);
        game.tick(&input, 100);
        assert_eq!(game.registry.enemy_count(), 0);
    }
    keep_player_safe(&mut game);
    game.tick(&input, 100);
    assert_eq!(game.registry.enemy_count(), 1);
    assert_eq!(game.registry.enemies[0].enemy_state, EnemyState::Spawning);
    let p = game.registry.enemies[0].pos;
    assert!(0 <= p.x && p.x < 384_000);
    assert!(0 <= p.y && p.y < 192_000);
}

#[test]
fn leaving_running_despawns_every_wave_entity() {
    let mut game = game_at_running();
    let input = start_input();
    // Play out almost the whole fifteen-second wave.
    let mut saw_enemy = false;
    for _ in 0..149 {
        keep_player_safe(&mut game);
        game.tick(&input, 100);
        if game.registry.enemy_count() > 0 {
            saw_enemy = true;
        }
    }
    assert!(saw_enemy);
    assert_eq!(game.state.wave, WaveState::Running);
    // The last hundred milliseconds end the wave and tear everything down.
    keep_player_safe(&mut game);
    let effects = game.tick(&input, 100);
    assert_eq!(game.state.wave, WaveState::Complete);
    assert!(effects.contains(&Effect::ShowBanner(Banner::Finished)));
    assert_eq!(game.registry.enemy_count(), 0);
    assert_eq!(game.registry.weapon_count(), 0);
    assert!(!game.registry.has_player());
    assert!(!game.registry.has_defender());
}

#[test]
fn completed_wave_cycles_through_shop_to_next_level() {
    let mut game = game_at_running();
    let input = start_input();
    // One delta covering the whole wave: the wave timer fires first, so the
    // wave completes before any combat runs.
    game.tick(&input, 15_000);
    assert_eq!(game.state.wave, WaveState::Complete);
    // The completion delay elapses...
    game.tick(&input, 3_000);
    assert_eq!(game.state.game, GameState::Shop);
    assert!(game.controller.is_none());
    // ...and the shop immediately raises the level and starts the next wave.
    game.tick(&input, 16);
    assert_eq!(game.state.game, GameState::Wave);
    assert_eq!(game.state.wave, WaveState::Preparation);
    assert_eq!(game.state.level, 1);
    let ctrl = game.controller.as_ref().expect("a new controller for the next wave");
    assert_eq!(ctrl.enemy_spawn_timer.duration, 4_500);
}

#[test]
fn player_death_leads_to_game_over_then_menu() {
    let mut game = game_at_running();
    let input = start_input();
    // The player's health reaches zero: Dead within the same tick.
    game.registry.player.as_mut().unwrap().health.current = 0;
    game.tick(&input, 100);
    assert_eq!(
        game.registry.player.as_ref().unwrap().player_state,
        PlayerState::Dead
    );
    // After one second of death delay the run is over, exactly once.
    let mut game_over_banners = 0u32;
    for _ in 0..9 {
        let effects = game.tick(&input, 100);
        if effects.contains(&Effect::ShowBanner(Banner::GameOver)) {
            game_over_banners += 1;
        }
    }
    assert_eq!(game.state.wave, WaveState::GameOver);
    assert_eq!(game_over_banners, 1);
    assert!(!game.registry.has_player());
    // The game-over delay returns to the menu and tears the wave down.
    let effects = game.tick(&input, 3_000);
    assert_eq!(game.state.app, AppState::Menu);
    assert!(effects.contains(&Effect::ShowMenu));
    assert!(game.controller.is_none());
    // A new run can start from the menu again.
    let mut confirm = start_input();
    confirm.confirm = true;
    game.tick(&confirm, 16);
    assert_eq!(game.state.wave, WaveState::Preparation);
    assert!(game.controller.is_some());
}

#[test]
fn boundary_kills_regardless_of_health() {
    let mut game = game_at_running();
    let input = start_input();
    game.registry.player.as_mut().unwrap().pos = Vec2I { x: 400_000, y: 0 };
    game.tick(&input, 16);
    let p = game.registry.player.as_ref().unwrap();
    assert_eq!(p.player_state, PlayerState::Dead);
    assert_eq!(p.health.current, 10);
}

#[test]
fn pause_suspends_the_simulation() {
    let mut game = game_at_running();
    let mut input = start_input();
    input.open_menu = true;
    game.tick(&input, 16);
    assert_eq!(game.state.pause, PauseState::Paused);
    // While paused, movement intents and time change nothing.
    let mut held = start_input();
    held.move_right = true;
    let pos_before = game.registry.player.as_ref().unwrap().pos;
    let timer_before = game.controller.as_ref().unwrap().wave_timer.elapsed;
    for _ in 0..10 {
        game.tick(&held, 1_000);
    }
    assert_eq!(game.registry.player.as_ref().unwrap().pos, pos_before);
    assert_eq!(game.controller.as_ref().unwrap().wave_timer.elapsed, timer_before);
    // Resume.
    let mut resume = start_input();
    resume.close_menu = true;
    game.tick(&resume, 16);
    assert_eq!(game.state.pause, PauseState::Running);
}

#[test]
fn defender_fires_during_live_combat() {
    let mut game = game_at_running();
    let input = start_input();
    // Hand-place an active enemy 100 pixels to the player's right.
    let mut e = Enemy::spawn(999, Vec2I { x: 100_000, y: 0 });
    e.enemy_state = EnemyState::Active;
    game.registry.enemies.push(e);
    game.registry.next_id = 1_000;
    // One second finishes the defender's action timer: it fires one arrow
    // at the only active enemy.
    game.tick(&input, 1_000);
    assert_eq!(game.registry.weapon_count(), 1);
    assert_eq!(game.registry.weapons[0].target, Some(999));
}

#[test]
fn spawn_positions_stay_in_the_quadrant() {
    let arena = keep_moving::Arena::new();
    let mut rng = rand::rngs::StdRng::seed_from_u64(3);
    for _ in 0..200 {
        let p = keep_moving::spawn_position(&mut rng, &arena);
        assert!(0 <= p.x && p.x < 384_000);
        assert!(0 <= p.y && p.y < 192_000);
    }
}

#[test]
fn player_moves_unconditionally_while_alive() {
    let mut game = game_at_running();
    let input = start_input();
    let before = game.registry.player.as_ref().unwrap().pos;
    game.tick(&input, 100);
    let after = game.registry.player.as_ref().unwrap().pos;
    // Facing up at 120 px/s: 12 px in a tenth of a second.
    assert_eq!(after, Vec2I { x: before.x, y: before.y + 12_000 });
}
