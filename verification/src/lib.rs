pub mod frame;
pub mod geometry;
pub mod laws;
pub mod state;
