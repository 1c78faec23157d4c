pub mod kernel;
pub mod lens;
pub mod primitive;
