//! The hierarchical run state and its transition function.
//!
//! App: Loading / Menu / Game; inside Game: Shop / Wave; inside Wave:
//! Preparation / Running / Complete / GameOver; orthogonal to Game: Running /
//! Paused.  A child state is meaningful only while its parent is active, and
//! entering a parent re-initializes its children to their defaults.
//!
//! `transition` maps a state and an event to the next state plus the
//! presentation side effects (banners, menu, music, arena) that entering and
//! leaving states call for; entity scoping (spawns and despawns) is applied
//! by the world on top of these transitions.

use vstd::prelude::*;

verus! {

#[derive(Clone, Copy, Debug, PartialEq, Eq, Structural)]
pub enum AppState {
    Loading,
    Menu,
    Game,
}

impl Default for AppState {
    fn default() -> (r: Self)
        ensures
            r == AppState::Loading,
    {
        AppState::Loading
    }
}

#[derive(Clone, Copy, Debug, PartialEq, Eq, Structural)]
pub enum GameState {
    Shop,
    Wave,
}

impl Default for GameState {
    fn default() -> (r: Self)
        ensures
            r == GameState::Wave,
    {
        GameState::Wave
    }
}

#[derive(Clone, Copy, Debug, PartialEq, Eq, Structural)]
pub enum PauseState {
    Paused,
    Running,
}

impl Default for PauseState {
    fn default() -> (r: Self)
        ensures
            r == PauseState::Running,
    {
        PauseState::Running
    }
}

#[derive(Clone, Copy, Debug, PartialEq, Eq, Structural)]
pub enum WaveState {
    Complete,
    GameOver,
    Preparation,
    Running,
}

impl Default for WaveState {
    fn default() -> (r: Self)
        ensures
            r == WaveState::Preparation,
    {
        WaveState::Preparation
    }
}

/// The whole nested run state, plus the wave level that survives the
/// shop/wave cycle.
#[derive(Clone, Copy, Debug, PartialEq, Eq, Structural)]
pub struct RunState {
    pub app: AppState,
    pub game: GameState,
    pub wave: WaveState,
    pub pause: PauseState,
    pub level: u32,
}

/// An event the run-state machine reacts to.  Timer-driven events are
/// emitted by the wave controller and the player's death timer; intent
/// events come from the input collaborator.
#[derive(Clone, Copy, Debug, PartialEq, Eq, Structural)]
pub enum RunEvent {
    /// The asset collaborator confirmed readiness (leaves Loading).
    AssetsLoaded,
    /// Explicit "start" intent from the menu.
    StartPressed,
    /// Explicit pause/resume intent.
    PauseToggled,
    /// The 3-2-1-Go countdown reached zero and its timer fired.
    PreparationDone,
    /// The wave duration timer fired.
    WaveTimeUp,
    /// The dead player's death timer fired.
    PlayerDied,
    /// The completion delay after a finished wave elapsed.
    FinishDelayDone,
    /// The delay after a game over elapsed.
    GameOverDelayDone,
    /// The shop was entered; it immediately raises the level and starts the
    /// next wave.
    ShopEntered,
}

/// A presentation cue for the render/audio collaborator.  The core only
/// decides when each cue fires.
#[derive(Clone, Copy, Debug, PartialEq, Eq, Structural)]
pub enum Banner {
    Preparation,
    Finished,
    GameOver,
}

#[derive(Clone, Copy, Debug, PartialEq, Eq, Structural)]
pub enum Effect {
    ShowMenu,
    ClearMenu,
    ShowBanner(Banner),
    ClearBanner(Banner),
    /// Entering the wave screen: build the tile arena, reset the camera,
    /// show the wave UI and start the wave music.
    EnterWaveScreen,
    /// Leaving the wave screen: clear the wave UI and stop the music.
    LeaveWaveScreen,
}

impl RunState {
    /// The state a fresh run starts in.
    pub open spec fn spec_initial() -> RunState {
        RunState {
            app: AppState::Loading,
            game: GameState::Wave,
            wave: WaveState::Preparation,
            pause: PauseState::Running,
            level: 0,
        }
    }

    pub fn initial() -> (r: RunState)
        ensures
            r == RunState::spec_initial(),
    {
        RunState {
            app: AppState::Loading,
            game: GameState::Wave,
            wave: WaveState::Preparation,
            pause: PauseState::Running,
            level: 0,
        }
    }

    /// The wave screen is active.
    pub open spec fn spec_in_wave(self) -> bool {
        self.app == AppState::Game && self.game == GameState::Wave
    }

    /// Combat is live: the wave screen is active and the wave is running.
    pub open spec fn spec_in_wave_running(self) -> bool {
        self.spec_in_wave() && self.wave == WaveState::Running
    }

    /// The simulation is suspended by the pause toggle.
    pub open spec fn spec_paused(self) -> bool {
        self.app == AppState::Game && self.pause == PauseState::Paused
    }

    pub fn in_wave(&self) -> (r: bool)
        ensures
            r == self.spec_in_wave(),
    {
        self.app == AppState::Game && self.game == GameState::Wave
    }

    pub fn in_wave_running(&self) -> (r: bool)
        ensures
            r == self.spec_in_wave_running(),
    {
        self.app == AppState::Game && self.game == GameState::Wave && self.wave
            == WaveState::Running
    }

    pub fn is_paused(&self) -> (r: bool)
        ensures
            r == self.spec_paused(),
    {
        self.app == AppState::Game && self.pause == PauseState::Paused
    }

    /// The banner the current state displays, if any.
    pub open spec fn spec_banner(self) -> Option<Banner> {
        if self.spec_in_wave() {
            match self.wave {
                WaveState::Preparation => Some(Banner::Preparation),
                WaveState::Complete => Some(Banner::Finished),
                WaveState::GameOver => Some(Banner::GameOver),
                WaveState::Running => None,
            }
        } else {
            None
        }
    }
}

/// Where one event takes the run state.  Events that do not apply in the
/// current state leave it unchanged.
pub open spec fn spec_transition(s: RunState, ev: RunEvent) -> RunState {
    match ev {
        RunEvent::AssetsLoaded => {
            if s.app == AppState::Loading {
                RunState { app: AppState::Menu, ..s }
            } else {
                s
            }
        },
        RunEvent::StartPressed => {
            if s.app == AppState::Menu {
                RunState {
                    app: AppState::Game,
                    game: GameState::Wave,
                    wave: WaveState::Preparation,
                    pause: PauseState::Running,
                    ..s
                }
            } else {
                s
            }
        },
        RunEvent::PauseToggled => {
            if s.app == AppState::Game {
                RunState {
                    pause: if s.pause == PauseState::Paused {
                        PauseState::Running
                    } else {
                        PauseState::Paused
                    },
                    ..s
                }
            } else {
                s
            }
        },
        RunEvent::PreparationDone => {
            if s.spec_in_wave() && s.wave == WaveState::Preparation {
                RunState { wave: WaveState::Running, ..s }
            } else {
                s
            }
        },
        RunEvent::WaveTimeUp => {
            if s.spec_in_wave_running() {
                RunState { wave: WaveState::Complete, ..s }
            } else {
                s
            }
        },
        RunEvent::PlayerDied => {
            if s.spec_in_wave_running() {
                RunState { wave: WaveState::GameOver, ..s }
            } else {
                s
            }
        },
        RunEvent::FinishDelayDone => {
            if s.spec_in_wave() && s.wave == WaveState::Complete {
                RunState { game: GameState::Shop, wave: WaveState::Preparation, ..s }
            } else {
                s
            }
        },
        RunEvent::GameOverDelayDone => {
            if s.spec_in_wave() && s.wave == WaveState::GameOver {
                RunState {
                    app: AppState::Menu,
                    game: GameState::Wave,
                    wave: WaveState::Preparation,
                    pause: PauseState::Running,
                    ..s
                }
            } else {
                s
            }
        },
        RunEvent::ShopEntered => {
            if s.app == AppState::Game && s.game == GameState::Shop {
                RunState {
                    game: GameState::Wave,
                    wave: WaveState::Preparation,
                    level: if s.level == u32::MAX {
                        s.level
                    } else {
                        (s.level + 1) as u32
                    },
                    ..s
                }
            } else {
                s
            }
        },
    }
}

/// The presentation cues owed when the state moves from `a` to `b`:
/// clear what was left, then show what was entered.
pub open spec fn spec_effects(a: RunState, b: RunState) -> Seq<Effect> {
    (if a.app == AppState::Menu && b.app != AppState::Menu {
        seq![Effect::ClearMenu]
    } else {
        Seq::<Effect>::empty()
    }) + (match a.spec_banner() {
        Some(ban) => if a.spec_banner() != b.spec_banner() {
            seq![Effect::ClearBanner(ban)]
        } else {
            Seq::<Effect>::empty()
        },
        None => Seq::<Effect>::empty(),
    }) + (if a.spec_in_wave() && !b.spec_in_wave() {
        seq![Effect::LeaveWaveScreen]
    } else {
        Seq::<Effect>::empty()
    }) + (if !a.spec_in_wave() && b.spec_in_wave() {
        seq![Effect::EnterWaveScreen]
    } else {
        Seq::<Effect>::empty()
    }) + (match b.spec_banner() {
        Some(ban) => if a.spec_banner() != b.spec_banner() {
            seq![Effect::ShowBanner(ban)]
        } else {
            Seq::<Effect>::empty()
        },
        None => Seq::<Effect>::empty(),
    }) + (if a.app != AppState::Menu && b.app == AppState::Menu {
        seq![Effect::ShowMenu]
    } else {
        Seq::<Effect>::empty()
    })
}

fn banner_of(s: &RunState) -> (r: Option<Banner>)
    ensures
        r == s.spec_banner(),
{
    if s.in_wave() {
        match s.wave {
            WaveState::Preparation => Some(Banner::Preparation),
            WaveState::Complete => Some(Banner::Finished),
            WaveState::GameOver => Some(Banner::GameOver),
            WaveState::Running => None,
        }
    } else {
        None
    }
}

/// Apply one event: the next state is `spec_transition`, and the returned
/// cues are exactly the clear/show sequence `spec_effects` owes for the
/// states left and entered.
pub fn transition(s: RunState, ev: RunEvent) -> (r: (RunState, Vec<Effect>))
    ensures
        r.0 == spec_transition(s, ev),
        r.1@ == spec_effects(s, spec_transition(s, ev)),
{
    let next: RunState = match ev {
        RunEvent::AssetsLoaded => {
            if s.app == AppState::Loading {
                RunState { app: AppState::Menu, ..s }
            } else {
                s
            }
        },
        RunEvent::StartPressed => {
            if s.app == AppState::Menu {
                RunState {
                    app: AppState::Game,
                    game: GameState::Wave,
                    wave: WaveState::Preparation,
                    pause: PauseState::Running,
                    ..s
                }
            } else {
                s
            }
        },
        RunEvent::PauseToggled => {
            if s.app == AppState::Game {
                RunState {
                    pause: if s.pause == PauseState::Paused {
                        PauseState::Running
                    } else {
                        PauseState::Paused
                    },
                    ..s
                }
            } else {
                s
            }
        },
        RunEvent::PreparationDone => {
            if s.in_wave() && s.wave == WaveState::Preparation {
                RunState { wave: WaveState::Running, ..s }
            } else {
                s
            }
        },
        RunEvent::WaveTimeUp => {
            if s.in_wave_running() {
                RunState { wave: WaveState::Complete, ..s }
            } else {
                s
            }
        },
        RunEvent::PlayerDied => {
            if s.in_wave_running() {
                RunState { wave: WaveState::GameOver, ..s }
            } else {
                s
            }
        },
        RunEvent::FinishDelayDone => {
            if s.in_wave() && s.wave == WaveState::Complete {
                RunState { game: GameState::Shop, wave: WaveState::Preparation, ..s }
            } else {
                s
            }
        },
        RunEvent::GameOverDelayDone => {
            if s.in_wave() && s.wave == WaveState::GameOver {
                RunState {
                    app: AppState::Menu,
                    game: GameState::Wave,
                    wave: WaveState::Preparation,
                    pause: PauseState::Running,
                    ..s
                }
            } else {
                s
            }
        },
        RunEvent::ShopEntered => {
            if s.app == AppState::Game && s.game == GameState::Shop {
                RunState {
                    game: GameState::Wave,
                    wave: WaveState::Preparation,
                    level: if s.level == u32::MAX {
                        s.level
                    } else {
                        s.level + 1
                    },
                    ..s
                }
            } else {
                s
            }
        },
    };
    let effects: Vec<Effect> = emit_effects(&s, &next);
    (next, effects)
}

/// Build the clear/show cue list for a state change.
fn emit_effects(a: &RunState, b: &RunState) -> (r: Vec<Effect>)
    ensures
        r@ == spec_effects(*a, *b),
{
    let mut v: Vec<Effect> = Vec::new();
    if a.app == AppState::Menu && b.app != AppState::Menu {
        v.push(Effect::ClearMenu);
    }
    let ban_a: Option<Banner> = banner_of(a);
    let ban_b: Option<Banner> = banner_of(b);
    let banner_changed: bool = match (ban_a, ban_b) {
        (Some(x), Some(y)) => x != y,
        (Some(_), None) => true,
        (None, Some(_)) => true,
        (None, None) => false,
    };
    match ban_a {
        Some(ban) => if banner_changed {
            v.push(Effect::ClearBanner(ban));
        },
        None => {},
    }
    if a.in_wave() && !b.in_wave() {
        v.push(Effect::LeaveWaveScreen);
    }
    if !a.in_wave() && b.in_wave() {
        v.push(Effect::EnterWaveScreen);
    }
    match ban_b {
        Some(ban) => if banner_changed {
            v.push(Effect::ShowBanner(ban));
        },
        None => {},
    }
    if a.app != AppState::Menu && b.app == AppState::Menu {
        v.push(Effect::ShowMenu);
    }
    proof {
        assert(v@ =~= spec_effects(*a, *b));
    }
    v
}

} // verus!
