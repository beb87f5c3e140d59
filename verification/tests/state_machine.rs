use keep_moving::{
    transition, AppState, Banner, Effect, GameState, PauseState, RunEvent, RunState, Timer,
    TimerMode, WaveController, WaveState,
};

fn initial() -> RunState {
    RunState::initial()
}

#[test]
fn initial_state_is_loading() {
    let s = initial();
    assert_eq!(s.app, AppState::Loading);
    assert_eq!(s.game, GameState::Wave);
    assert_eq!(s.wave, WaveState::Preparation);
    assert_eq!(s.pause, PauseState::Running);
    assert_eq!(s.level, 0);
}

#[test]
fn assets_loaded_moves_to_menu() {
    let (s, effects) = transition(initial(), RunEvent::AssetsLoaded);
    assert_eq!(s.app, AppState::Menu);
    assert_eq!(effects, vec![Effect::ShowMenu]);
}

#[test]
fn start_enters_wave_preparation() {
    let (menu, _) = transition(initial(), RunEvent::AssetsLoaded);
    let (s, effects) = transition(menu, RunEvent::StartPressed);
    assert_eq!(s.app, AppState::Game);
    assert_eq!(s.game, GameState::Wave);
    assert_eq!(s.wave, WaveState::Preparation);
    assert_eq!(
        effects,
        vec![
            Effect::ClearMenu,
            Effect::EnterWaveScreen,
            Effect::ShowBanner(Banner::Preparation),
        ]
    );
}

fn in_wave(wave: WaveState) -> RunState {
    RunState {
        app: AppState::Game,
        game: GameState::Wave,
        wave,
        pause: PauseState::Running,
        level: 0,
    }
}

#[test]
fn preparation_done_clears_the_banner() {
    let (s, effects) = transition(in_wave(WaveState::Preparation), RunEvent::PreparationDone);
    assert_eq!(s.wave, WaveState::Running);
    assert_eq!(effects, vec![Effect::ClearBanner(Banner::Preparation)]);
}

#[test]
fn wave_time_up_shows_finished_banner() {
    let (s, effects) = transition(in_wave(WaveState::Running), RunEvent::WaveTimeUp);
    assert_eq!(s.wave, WaveState::Complete);
    assert_eq!(effects, vec![Effect::ShowBanner(Banner::Finished)]);
}

#[test]
fn finish_delay_leads_to_shop_and_leaves_the_wave_screen() {
    let (s, effects) = transition(in_wave(WaveState::Complete), RunEvent::FinishDelayDone);
    assert_eq!(s.game, GameState::Shop);
    assert_eq!(
        effects,
        vec![Effect::ClearBanner(Banner::Finished), Effect::LeaveWaveScreen]
    );
}

#[test]
fn shop_raises_level_and_returns_to_preparation() {
    let shop = RunState { game: GameState::Shop, ..in_wave(WaveState::Preparation) };
    let (s, _) = transition(shop, RunEvent::ShopEntered);
    assert_eq!(s.game, GameState::Wave);
    assert_eq!(s.wave, WaveState::Preparation);
    assert_eq!(s.level, 1);
}

#[test]
fn game_over_delay_returns_to_menu() {
    let (s, effects) = transition(in_wave(WaveState::GameOver), RunEvent::GameOverDelayDone);
    assert_eq!(s.app, AppState::Menu);
    assert_eq!(s.wave, WaveState::Preparation);
    assert_eq!(s.pause, PauseState::Running);
    assert_eq!(
        effects,
        vec![
            Effect::ClearBanner(Banner::GameOver),
            Effect::LeaveWaveScreen,
            Effect::ShowMenu,
        ]
    );
}

#[test]
fn pause_toggles_both_ways() {
    let (paused, _) = transition(in_wave(WaveState::Running), RunEvent::PauseToggled);
    assert_eq!(paused.pause, PauseState::Paused);
    let (resumed, _) = transition(paused, RunEvent::PauseToggled);
    assert_eq!(resumed.pause, PauseState::Running);
}

#[test]
fn events_out_of_context_change_nothing() {
    let s0 = initial();
    for ev in [
        RunEvent::StartPressed,
        RunEvent::PauseToggled,
        RunEvent::PreparationDone,
        RunEvent::WaveTimeUp,
        RunEvent::PlayerDied,
        RunEvent::FinishDelayDone,
        RunEvent::GameOverDelayDone,
        RunEvent::ShopEntered,
    ] {
        let (s, effects) = transition(s0, ev);
        assert_eq!(s, s0);
        assert_eq!(effects, vec![]);
    }
    let running = in_wave(WaveState::Running);
    let (s, _) = transition(running, RunEvent::AssetsLoaded);
    assert_eq!(s, running);
    let (s, _) = transition(running, RunEvent::FinishDelayDone);
    assert_eq!(s, running);
}

#[test]
fn extreme_level_scaling_stays_sane() {
    let c = WaveController::from_level(u32::MAX);
    assert_eq!(c.enemy_spawn_amount, 1 + u32::MAX / 2);
    assert_eq!(c.enemy_spawn_timer.duration, 500);
}

#[test]
fn largest_frame_delta_wraps_repeating_timers() {
    let mut t = Timer::from_millis(5_000, TimerMode::Repeating);
    t.tick(60_000);
    assert_eq!(t.fired, 12);
    assert_eq!(t.elapsed, 0);
}
