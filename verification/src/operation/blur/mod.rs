pub mod gaussian;
pub mod kuwahara;
pub mod mean;
