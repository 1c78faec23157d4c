use vstd::prelude::*;
use vstd::std_specs::ops::NegSpec;

use super::limits::{DIMENSION_MAX, lemma_dimension_max};
use super::point::Point;

verus! {

/// Represents a 2D offset between two [`Point`]s. Both components lie strictly between
/// `-DIMENSION_MAX` and `DIMENSION_MAX`.
#[derive(Debug, Copy, Clone, PartialEq, Eq, Structural)]
pub struct Offset {
    x: isize,
    y: isize,
}

/// Error returned when an [`Offset`] cannot be created.
#[derive(Debug, PartialEq, Eq, Structural, Clone, Copy)]
pub enum OffsetCreationError {
    XTooBig,
    YTooBig,
    XTooSmall,
    YTooSmall,
}

pub type OffsetCreationResult<T> = Result<T, OffsetCreationError>;

impl View for Offset {
    type V = (int, int);

    closed spec fn view(&self) -> (int, int) {
        (self.x as int, self.y as int)
    }
}

/// Whether `v` is a valid component of an [`Offset`].
pub open spec fn valid_offset_component(v: int) -> bool {
    -DIMENSION_MAX < v < DIMENSION_MAX
}

/// What [`Offset::new`] returns for the given components.
pub open spec fn offset_new_result(x: int, y: int) -> Result<(int, int), OffsetCreationError> {
    if x >= DIMENSION_MAX {
        Err(OffsetCreationError::XTooBig)
    } else if x <= -DIMENSION_MAX {
        Err(OffsetCreationError::XTooSmall)
    } else if y >= DIMENSION_MAX {
        Err(OffsetCreationError::YTooBig)
    } else if y <= -DIMENSION_MAX {
        Err(OffsetCreationError::YTooSmall)
    } else {
        Ok((x, y))
    }
}

/// The view of an offset result.
pub open spec fn offset_result_view(r: Result<Offset, OffsetCreationError>) -> Result<(int, int), OffsetCreationError> {
    match r {
        Ok(o) => Ok(o@),
        Err(e) => Err(e),
    }
}

impl Offset {
    #[verifier::type_invariant]
    spec fn inv(self) -> bool {
        valid_offset_component(self.x as int) && valid_offset_component(self.y as int)
    }

    /// The offset with the given components; meaningful where they are valid.
    pub closed spec fn with_components(x: int, y: int) -> Offset {
        Offset { x: x as isize, y: y as isize }
    }

    /// Offsets are equal exactly when their components are.
    pub broadcast proof fn lemma_view_eq(p: Offset, q: Offset)
        ensures
            #[trigger] (p@) == #[trigger] (q@) <==> p == q,
    {
    }

    /// The components of [`Offset::with_components`].
    pub broadcast proof fn lemma_with_components(x: int, y: int)
        requires
            valid_offset_component(x),
            valid_offset_component(y),
        ensures
            #[trigger] Offset::with_components(x, y)@ == (x, y),
    {
        lemma_dimension_max();
    }

    /// Create a new [`Offset`] with specified `x` and `y`.
    ///
    /// Fails, checking in this order, with `XTooBig` if `x >= DIMENSION_MAX`, `XTooSmall`
    /// if `x <= -DIMENSION_MAX`, `YTooBig` if `y >= DIMENSION_MAX` and `YTooSmall` if
    /// `y <= -DIMENSION_MAX`.
    pub fn new(x: isize, y: isize) -> (r: OffsetCreationResult<Offset>)
        ensures
            offset_result_view(r) == offset_new_result(x as int, y as int),
    {
        proof {
            lemma_dimension_max();
        }
        let max = DIMENSION_MAX as isize;
        if x >= max {
            return Err(OffsetCreationError::XTooBig);
        }
        if x <= -max {
            return Err(OffsetCreationError::XTooSmall);
        }
        if y >= max {
            return Err(OffsetCreationError::YTooBig);
        }
        if y <= -max {
            return Err(OffsetCreationError::YTooSmall);
        }
        Ok(Offset { x, y })
    }

    /// Returns [`Offset`]'s x.
    pub fn x(&self) -> (r: isize)
        ensures
            r == self@.0,
            valid_offset_component(r as int),
    {
        proof {
            use_type_invariant(self);
        }
        self.x
    }

    /// Returns [`Offset`]'s y.
    pub fn y(&self) -> (r: isize)
        ensures
            r == self@.1,
            valid_offset_component(r as int),
    {
        proof {
            use_type_invariant(self);
        }
        self.y
    }
}

impl core::convert::From<Point> for Offset {
    /// The offset from the origin to `value`.
    fn from(value: Point) -> (r: Offset) {
        proof {
            lemma_dimension_max();
        }
        let x = value.x();
        let y = value.y();
        let r = Offset { x: x as isize, y: y as isize };
        proof {
            Offset::lemma_with_components(value@.0, value@.1);
            Offset::lemma_view_eq(r, Offset::with_components(value@.0, value@.1));
        }
        r
    }
}

impl vstd::std_specs::convert::FromSpecImpl<Point> for Offset {
    open spec fn obeys_from_spec() -> bool {
        true
    }

    open spec fn from_spec(v: Point) -> Offset {
        Offset::with_components(v@.0, v@.1)
    }
}

impl core::ops::Neg for Offset {
    type Output = Offset;

    /// The offset with both components negated.
    fn neg(self) -> (r: Offset) {
        proof {
            use_type_invariant(self);
            lemma_dimension_max();
        }
        Offset { x: -self.x, y: -self.y }
    }
}

impl vstd::std_specs::ops::NegSpecImpl for Offset {
    open spec fn obeys_neg_spec() -> bool {
        true
    }

    open spec fn neg_req(self) -> bool {
        true
    }

    open spec fn neg_spec(self) -> Offset {
        Offset::with_components(-self@.0, -self@.1)
    }
}


/// Negating an offset twice gives it back.
pub proof fn law_neg_involution(offset: Offset)
    requires
        valid_offset_component(offset@.0),
        valid_offset_component(offset@.1),
    ensures
        NegSpec::neg_spec(NegSpec::neg_spec(offset)) == offset,
{
    Offset::lemma_with_components(-offset@.0, -offset@.1);
    Offset::lemma_with_components(offset@.0, offset@.1);
    Offset::lemma_view_eq(NegSpec::neg_spec(NegSpec::neg_spec(offset)), offset);
}

} // verus!
