//! Decision layer of a top-down arena shooter: cooldown-gated weapons,
//! spread fans, a fair choice among ready attackers, wandering and spawning
//! directors, and the bridge from pointer state to player intents.
//!
//! Time is counted in whole microseconds of simulation time, positions in
//! integer world sub-units (a thousand to the world unit), and angles in
//! degrees.
pub mod ai;
pub mod cooldown;
pub mod discharge;
pub mod fairness;
pub mod geometry;
pub mod pacing;
pub mod player;
pub mod spread;
pub mod timer;

pub use ai::{ai_blueprint, ai_fire, ai_move, spawn_ais, update_spawn_interval, Ai, AiBlueprint};
pub use ai::{AI_TEAM, ARENA_HALF_HEIGHT, ARENA_HALF_WIDTH, FIRE_PERIOD, GROWTH_PERIOD, WANDER_PERIOD};
pub use cooldown::{settle_discharge, Cooldown};
pub use discharge::{discharge_toward, Attacker, DischargeRequest};
pub use fairness::{choose_attacker, first_candidate, ready_attackers};
pub use geometry::{Point, COORD_LIMIT};
pub use pacing::SpawnPacing;
pub use player::{handle_clicks_to_fire, handle_mouse_to_move, Player};
pub use spread::{spread_fan, Fan, Weapon};
pub use timer::{RepeatingTimer, RestartingTimer};
