//! The simulation core of a brick-breaking arcade game: entities and their
//! collision test, the ball's wall bounce, tile levels and their text form,
//! the registry of textures and shader programs, and the sprites that a
//! frame draws.
//!
//! Numbers are exact: every length, speed, time step, angle and colour
//! channel is a whole number of thousandths (`fixed::Fixed`). The library
//! touches neither files nor the screen. It records which files stand
//! behind its texture and shader handles (`resource_manager`) and which
//! sprites make up a frame (`sprite_renderer`); its user reads the files
//! and draws the sprites.
pub mod fixed;
pub mod vector;
pub mod texture;
pub mod shader;
pub mod resource_manager;
pub mod sprite_renderer;
pub mod game_object;
pub mod level_text;
pub mod game_level;
pub mod ball_object;
pub mod game;
pub mod model;
