use vstd::prelude::*;

use super::limits::DIMENSION_MAX;

verus! {

/// Represents a 2D margin with top, right, bottom and left components, each between 0 and
/// [`DIMENSION_MAX`].
#[derive(Debug, Copy, Clone, PartialEq, Eq, Structural)]
pub struct Margin {
    top: usize,
    right: usize,
    bottom: usize,
    left: usize,
}

/// Error returned when a [`Margin`] cannot be created.
#[derive(Debug, PartialEq, Eq, Structural, Clone, Copy)]
pub enum MarginCreationError {
    TopTooBig,
    RightTooBig,
    BottomTooBig,
    LeftTooBig,
}

pub type MarginCreationResult<T> = Result<T, MarginCreationError>;

impl View for Margin {
    /// `(top, right, bottom, left)`.
    type V = (int, int, int, int);

    closed spec fn view(&self) -> (int, int, int, int) {
        (self.top as int, self.right as int, self.bottom as int, self.left as int)
    }
}

/// What [`Margin::new`] returns for the given components.
pub open spec fn margin_new_result(top: int, right: int, bottom: int, left: int) -> Result<(int, int, int, int), MarginCreationError> {
    if top > DIMENSION_MAX {
        Err(MarginCreationError::TopTooBig)
    } else if right > DIMENSION_MAX {
        Err(MarginCreationError::RightTooBig)
    } else if bottom > DIMENSION_MAX {
        Err(MarginCreationError::BottomTooBig)
    } else if left > DIMENSION_MAX {
        Err(MarginCreationError::LeftTooBig)
    } else {
        Ok((top, right, bottom, left))
    }
}

/// The view of a margin result.
pub open spec fn margin_result_view(r: Result<Margin, MarginCreationError>) -> Result<(int, int, int, int), MarginCreationError> {
    match r {
        Ok(m) => Ok(m@),
        Err(e) => Err(e),
    }
}

impl Margin {
    #[verifier::type_invariant]
    spec fn inv(self) -> bool {
        self.top <= DIMENSION_MAX && self.right <= DIMENSION_MAX && self.bottom <= DIMENSION_MAX
            && self.left <= DIMENSION_MAX
    }

    /// Create a new [`Margin`] with specified top, right, bottom and left components.
    ///
    /// Fails, checking in this order, with `TopTooBig`, `RightTooBig`, `BottomTooBig` or
    /// `LeftTooBig` when that component exceeds [`DIMENSION_MAX`].
    pub fn new(top: usize, right: usize, bottom: usize, left: usize) -> (r: MarginCreationResult<Margin>)
        ensures
            margin_result_view(r) == margin_new_result(top as int, right as int, bottom as int, left as int),
    {
        if top > DIMENSION_MAX {
            return Err(MarginCreationError::TopTooBig);
        }
        if right > DIMENSION_MAX {
            return Err(MarginCreationError::RightTooBig);
        }
        if bottom > DIMENSION_MAX {
            return Err(MarginCreationError::BottomTooBig);
        }
        if left > DIMENSION_MAX {
            return Err(MarginCreationError::LeftTooBig);
        }
        Ok(Margin { top, right, bottom, left })
    }

    /// The margin with all components equal to `value`; meaningful where `value` is at
    /// most [`DIMENSION_MAX`].
    pub closed spec fn unified_spec(value: int) -> Margin {
        Margin { top: value as usize, right: value as usize, bottom: value as usize, left: value as usize }
    }

    /// The components of [`Margin::unified_spec`].
    pub broadcast proof fn lemma_unified_spec(value: int)
        requires
            0 <= value <= DIMENSION_MAX,
        ensures
            #[trigger] Margin::unified_spec(value)@ == (value, value, value, value),
    {
    }

    /// Components are never negative.
    pub proof fn lemma_view_nonneg(self)
        ensures
            0 <= self@.0,
            0 <= self@.1,
            0 <= self@.2,
            0 <= self@.3,
    {
    }

    /// Margins are equal exactly when their components are.
    pub broadcast proof fn lemma_view_eq(p: Margin, q: Margin)
        ensures
            #[trigger] (p@) == #[trigger] (q@) <==> p == q,
    {
    }

    /// The margin with all components equal to 0.
    pub closed spec fn zero_spec() -> Margin {
        Margin { top: 0, right: 0, bottom: 0, left: 0 }
    }

    /// The components of [`Margin::zero_spec`].
    pub proof fn lemma_zero_spec()
        ensures
            Margin::zero_spec()@ == (0int, 0int, 0int, 0int),
    {
    }

    /// The margin with all components equal to 0.
    pub fn zero() -> (r: Margin)
        ensures
            r == Margin::zero_spec(),
            r@ == (0int, 0int, 0int, 0int),
    {
        Margin { top: 0, right: 0, bottom: 0, left: 0 }
    }

    /// Create a new [`Margin`] with all components equal to `value`.
    pub fn unified(value: usize) -> (r: MarginCreationResult<Margin>)
        ensures
            margin_result_view(r) == margin_new_result(value as int, value as int, value as int, value as int),
    {
        Margin::new(value, value, value, value)
    }

    /// Returns [`Margin`]'s top component.
    pub fn top(&self) -> (r: usize)
        ensures
            r == self@.0,
            r <= DIMENSION_MAX,
    {
        proof {
            use_type_invariant(self);
        }
        self.top
    }

    /// Returns [`Margin`]'s right component.
    pub fn right(&self) -> (r: usize)
        ensures
            r == self@.1,
            r <= DIMENSION_MAX,
    {
        proof {
            use_type_invariant(self);
        }
        self.right
    }

    /// Returns [`Margin`]'s bottom component.
    pub fn bottom(&self) -> (r: usize)
        ensures
            r == self@.2,
            r <= DIMENSION_MAX,
    {
        proof {
            use_type_invariant(self);
        }
        self.bottom
    }

    /// Returns [`Margin`]'s left component.
    pub fn left(&self) -> (r: usize)
        ensures
            r == self@.3,
            r <= DIMENSION_MAX,
    {
        proof {
            use_type_invariant(self);
        }
        self.left
    }
}

} // verus!
