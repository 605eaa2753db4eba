//! A terminal snake game: the game-state engine, input coordination, pacing
//! and layout rules, each stated and proved with Verus.

pub mod game;
pub mod i18n;
pub mod input;
pub mod laws;
pub mod layout;
pub mod menu;
pub mod random;
pub mod render;
pub mod snake;
pub mod storage;
pub mod utils;
