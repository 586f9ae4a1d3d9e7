//! The rules of a survival game on a hexagonal map: the player's vitals and stats,
//! the checks that tiles roll, deaths and the evolutions they grant, and the map itself.
pub mod coords;
mod dice;
pub mod text;
pub mod stats;
pub mod vitals;
pub mod death;
pub mod checks;
pub mod tiles;
pub mod game_map;
pub mod game;
pub mod laws;
