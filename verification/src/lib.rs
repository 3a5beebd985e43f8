pub mod engine;
pub mod evaluation;
pub mod game;
pub mod movegen;
pub mod search;
pub mod utils;
