//! A deterministic, fixed-step 2D platformer simulation.
//!
//! The world holds one player, a list of patrolling enemies and three fixed
//! platforms on an 800 by 600 canvas whose bottom 60 pixels are ground. All
//! lengths, positions and velocities are fixed-point integers counted in
//! hundredths of a pixel (see [`units::UNIT`]), so every tick is exact and
//! repeatable.
//!
//! A host drives the simulation by staging key presses with
//! [`Game::handle_key_down`] and [`Game::handle_key_up`], advancing one tick
//! with [`Game::update`] and replaying the list returned by [`Game::render`]
//! on a drawing surface.

pub mod units;
pub mod ballistics;
pub mod geometry;
pub mod input;
pub mod player;
pub mod enemy;
pub mod collision;
pub mod world;
pub mod settling;
pub mod text;
pub mod render;
pub mod game;

pub use geometry::{check_rect_collision, Platform, PlatformView, Vector2, Vector2View};
pub use input::{Action, KeyState};
pub use player::{Player, PlayerView};
pub use enemy::{Enemy, EnemyKind, EnemyView};
pub use world::GameView;
pub use game::Game;
pub use render::{DrawCommand, DrawCommandView};
