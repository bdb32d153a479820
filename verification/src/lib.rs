//! Rules of a side-scrolling air combat game: the score and stage that a
//! session keeps, how the player's plane steers and fires, how enemies and
//! bullets react to collisions, and how a game scene moves from loading to
//! running to game over.
//!
//! The engine that draws the game, reads input and runs timers lives outside
//! this crate; it hands the rules plain values and performs what they decide.

pub mod text;
pub mod game_state;
pub mod layers;
pub mod bullet;
pub mod enemy;
pub mod player;
pub mod game_scene;
pub mod title_screen;
