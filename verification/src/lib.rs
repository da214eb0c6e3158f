pub mod board;
pub mod coord;
pub mod laws;
