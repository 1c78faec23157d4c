pub mod negative;

pub use negative::{negative, negative_lens};
