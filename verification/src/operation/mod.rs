pub mod blur;
pub mod color;
pub mod detection;
pub mod geometry;
