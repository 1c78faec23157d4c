pub mod crop;
pub mod resize;

pub use crop::{crop, crop_lens};
