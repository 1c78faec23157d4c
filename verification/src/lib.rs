use vstd::prelude::*;

pub mod collection;
pub mod component;
pub mod error;
pub mod image;
pub mod io;
pub mod iter;
pub mod lens;
pub mod math;
pub mod operation;
pub mod ops;
pub mod pixel;

verus! {
} // verus!
