use vstd::prelude::*;

verus! {

/// JPEG compression quality, between 0 and 100.
#[derive(Debug, PartialEq, Eq, Structural, Clone, Copy)]
pub struct JpegQuality(i32);

/// Error returned when a [`JpegQuality`] cannot be created.
#[derive(Debug, PartialEq, Eq, Structural, Clone, Copy)]
pub enum JpegQualityCreationError {
    InvalidValue,
}

pub type JpegQualityCreationResult<T> = Result<T, JpegQualityCreationError>;

impl View for JpegQuality {
    type V = int;

    closed spec fn view(&self) -> int {
        self.0 as int
    }
}

impl JpegQuality {
    #[verifier::type_invariant]
    spec fn inv(self) -> bool {
        0 <= self.0 <= 100
    }

    /// Create a quality of `value`; fails with `InvalidValue` unless `0 <= value <= 100`.
    pub fn new(value: i32) -> (r: JpegQualityCreationResult<JpegQuality>)
        ensures
            r is Ok <==> 0 <= value <= 100,
            r matches Ok(q) ==> q@ == value,
            r is Err ==> r == Err::<JpegQuality, JpegQualityCreationError>(JpegQualityCreationError::InvalidValue),
    {
        if !(0 <= value && value <= 100) {
            return Err(JpegQualityCreationError::InvalidValue);
        }
        Ok(JpegQuality(value))
    }

    /// The quality's value.
    pub fn value(&self) -> (r: i32)
        ensures
            r == self@,
            0 <= r <= 100,
    {
        proof {
            use_type_invariant(self);
        }
        self.0
    }
}

impl Default for JpegQuality {
    /// A quality of 75.
    fn default() -> (r: JpegQuality)
        ensures
            r@ == 75,
    {
        JpegQuality(75)
    }
}

/// Chroma subsampling of a JPEG image.
#[derive(Debug, PartialEq, Eq, Structural, Clone, Copy)]
pub enum JpegSubsampling {
    /// No subsampling.
    Sub1x1,
    Sub2x1,
    Sub2x2,
    Sub1x2,
    Sub4x1,
    Sub1x4,
}

impl Default for JpegSubsampling {
    /// `Sub2x2`.
    fn default() -> (r: JpegSubsampling)
        ensures
            r == JpegSubsampling::Sub2x2,
    {
        JpegSubsampling::Sub2x2
    }
}

} // verus!
