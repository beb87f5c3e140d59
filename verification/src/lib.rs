//! Core simulation of a small tower-survival game: a player roams a tile
//! arena while an automatic defender shoots projectiles at waves of pursuing
//! enemies, and the run moves through menu, preparation, combat, shop and
//! game-over states gated by health and timers.
//!
//! Time is measured in whole milliseconds and positions in whole millipixels
//! (one thousandth of a pixel), so every quantity in the simulation is an
//! integer and every update rule is stated and proved exactly.

mod action;
mod collision;
mod combat;
mod defender;
mod enemy;
mod health;
mod math;
mod player;
mod registry;
mod rng;
mod simple_animations;
mod state;
mod timer;
mod wave;
mod world;

pub use action::Action;
pub use action::Input;
pub use collision::aabbs_intersect;
pub use collision::circle_aabb_intersect;
pub use collision::circles_intersect;
pub use collision::Aabb;
pub use collision::BoundingVolume;
pub use collision::Circle;
pub use collision::Intersection;
pub use combat::player_hit;
pub use combat::resolve_weapon_hits;
pub use combat::weapon_hit;
pub use defender::defender_action;
pub use defender::find_enemy_index;
pub use defender::select_target;
pub use defender::Defender;
pub use defender::DefenderType;
pub use defender::Weapon;
pub use defender::WeaponType;
pub use enemy::Enemy;
pub use enemy::EnemyState;
pub use enemy::EnemyType;
pub use health::Health;
pub use health::HealthState;
pub use math::advance;
pub use math::coord_toward;
pub use math::dist_sq;
pub use math::isqrt;
pub use math::Vec2I;
pub use player::Player;
pub use player::PlayerState;
pub use registry::Registry;
pub use simple_animations::SimpleAnimation;
pub use state::transition;
pub use state::AppState;
pub use state::Banner;
pub use state::Effect;
pub use state::GameState;
pub use state::PauseState;
pub use state::RunEvent;
pub use state::RunState;
pub use state::WaveState;
pub use timer::Timer;
pub use timer::TimerMode;
pub use wave::boundary_collision;
pub use wave::spawn_position;
pub use wave::wave_timer_tick;
pub use wave::Arena;
pub use wave::WaveController;
pub use world::enemies_tick;
pub use world::enemies_update_death;
pub use world::spawn_enemies;
pub use world::weapons_tick;
pub use world::Game;
