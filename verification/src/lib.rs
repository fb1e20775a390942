pub mod canvas;
pub mod grid;
pub mod laws;
pub mod rng;
pub mod status;
pub mod systems;
pub mod world;
