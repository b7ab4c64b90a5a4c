//! What the user can ask of the player.

pub mod input;

pub use input::Action;
