pub mod blur;
pub mod geometry;
