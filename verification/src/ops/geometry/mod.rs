pub mod crop;
pub mod resize;
