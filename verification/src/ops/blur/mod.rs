pub mod gaussian;
pub mod median;
