pub mod config;
pub mod direction;
pub mod grid;
pub mod snake;
pub mod laws;
