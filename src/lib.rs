//! A turn-based snake game engine on a bounded grid.

pub mod characters;
pub mod coordinate;
pub mod entity_type;
pub mod entity_manager;
pub mod game_state;
pub mod powerup;
pub mod snake;
pub mod game;
pub mod classic;
pub mod canvas;
pub mod renderer;
pub mod screen;
