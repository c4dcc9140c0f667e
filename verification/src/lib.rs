//! Simulation core of a 2D arcade shooter.
//!
//! The player's ship fires bullets at enemies that descend over a fixed
//! playfield. Each frame advances every entity, spawns enemies on a timer,
//! resolves collisions and updates score, lives and the lifecycle state.
//! All coordinates are integers in fixed-point units ([`geometry::UNIT`] per
//! pixel); the library performs no I/O and draws no random numbers itself.

pub mod bullet;
pub mod collision;
pub mod enemy;
pub mod game;
pub mod game_state;
pub mod geometry;
pub mod input;
pub mod laws;
pub mod model;
pub mod player;

pub use bullet::Bullet;
pub use enemy::Enemy;
pub use game_state::GameState;
pub use geometry::{Rect, PLAYFIELD_HEIGHT, PLAYFIELD_WIDTH, UNIT};
pub use player::Player;
pub use game::{FrameResult, Game};
pub use model::GameView;
