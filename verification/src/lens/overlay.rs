use vstd::prelude::*;

use crate::component::primitive::{Area, Offset, Point, Size};
use crate::component::primitive::limits::lemma_dimension_max;
use crate::component::primitive::point::shifted;
use crate::component::primitive::size::valid_dims;
use crate::error::IndexResult;
use crate::lens::Lens;

verus! {

/// Error returned when an [`OverlayLens`] cannot be created.
#[derive(Debug, PartialEq, Eq, Structural, Clone, Copy)]
pub enum OverlayLensCreationError {
    OverlayStartOutOfBounds,
    OverlayTooBig,
}

pub type OverlayLensCreationResult<T> = Result<T, OverlayLensCreationError>;

/// A [`Lens`] that returns values from `overlay` within the area that starts at
/// `overlay_start` and has the overlay's size, and values from `base` elsewhere.
pub struct OverlayLens<S1: Lens, S2: Lens<Item = S1::Item>> {
    base: S1,
    overlay: S2,
    overlay_area: Area,
}

/// Whether an overlay of size `overlay` placed at `start` fits within `base`.
pub open spec fn overlay_fits(base: Size, overlay: Size, start: Point) -> bool {
    start@.0 + overlay@.0 <= base@.0 && start@.1 + overlay@.1 <= base@.1
}

/// What [`OverlayLens::new`] reports for the given sizes and start, where it fails.
pub open spec fn overlay_error(base: Size, overlay: Size, start: Point) -> Option<OverlayLensCreationError> {
    if !base.spec_contains(start) {
        Some(OverlayLensCreationError::OverlayStartOutOfBounds)
    } else if !overlay_fits(base, overlay, start) {
        Some(OverlayLensCreationError::OverlayTooBig)
    } else {
        None
    }
}

impl<S1: Lens, S2: Lens<Item = S1::Item>> OverlayLens<S1, S2> {
    #[verifier::type_invariant]
    spec fn inv(self) -> bool {
        &&& valid_dims(self.base.spec_size()@.0, self.base.spec_size()@.1)
        &&& self.overlay_area@.0 == self.overlay.spec_size()
        &&& valid_dims(self.overlay_area@.0@.0, self.overlay_area@.0@.1)
        &&& overlay_fits(self.base.spec_size(), self.overlay.spec_size(), self.overlay_area@.1)
    }

    /// The top left point of the overlay within the base.
    pub closed spec fn spec_start(self) -> Point {
        self.overlay_area@.1
    }

    /// Create an [`OverlayLens`] over `base` with `overlay` placed with its top left point
    /// at `overlay_start`.
    ///
    /// Fails with `OverlayStartOutOfBounds` if `overlay_start` lies outside `base`, and
    /// with `OverlayTooBig` if the overlay does not fit within `base` from there.
    pub fn new(base: S1, overlay: S2, overlay_start: Point) -> (r: OverlayLensCreationResult<OverlayLens<S1, S2>>)
        ensures
            match overlay_error(base.spec_size(), overlay.spec_size(), overlay_start) {
                Some(e) => r == Err::<OverlayLens<S1, S2>, OverlayLensCreationError>(e),
                None => r is Ok && r->Ok_0.spec_size() == base.spec_size() && forall|p: Point|
                    #[trigger] r->Ok_0.spec_look(p) == overlay_value(base, overlay, overlay_start, p),
            },
    {
        let base_size = base.size();
        if !base_size.contains(&overlay_start) {
            return Err(OverlayLensCreationError::OverlayStartOutOfBounds);
        }
        let overlay_size = overlay.size();
        let (bw, bh, ow, oh) = (base_size.width(), base_size.height(), overlay_size.width(), overlay_size.height());
        let (sx, sy) = (overlay_start.x(), overlay_start.y());
        proof {
            lemma_dimension_max();
        }
        let bottom_right = match Point::new(ow + sx - 1, oh + sy - 1) {
            Ok(p) => p,
            Err(_) => return Err(OverlayLensCreationError::OverlayTooBig),
        };
        if !base_size.contains(&bottom_right) {
            return Err(OverlayLensCreationError::OverlayTooBig);
        }
        let lens = OverlayLens { base, overlay, overlay_area: Area::new(overlay_size, overlay_start) };
        Ok(lens)
    }
}

/// The value at `p` of `overlay` placed at `start` over `base`.
pub open spec fn overlay_value<S1: Lens, S2: Lens<Item = S1::Item>>(base: S1, overlay: S2, start: Point, p: Point) -> S1::Item {
    if start@.0 <= p@.0 < start@.0 + overlay.spec_size()@.0 && start@.1 <= p@.1 < start@.1 + overlay.spec_size()@.1 {
        overlay.spec_look(shifted(p, -start@.0, -start@.1))
    } else {
        base.spec_look(p)
    }
}

impl<S1: Lens, S2: Lens<Item = S1::Item>> Lens for OverlayLens<S1, S2> {
    type Item = S1::Item;

    closed spec fn spec_size(&self) -> Size {
        self.base.spec_size()
    }

    closed spec fn spec_look(&self, point: Point) -> S1::Item {
        overlay_value(self.base, self.overlay, self.overlay_area@.1, point)
    }

    fn look(&self, point: Point) -> (r: IndexResult<S1::Item>) {
        proof {
            use_type_invariant(self);
        }
        if self.overlay_area.contains(&point) {
            let start = self.overlay_area.top_left();
            let _ = (start.x(), start.y(), point.x(), point.y());
            proof {
                lemma_dimension_max();
            }
            let inverse = Offset::new(-(start.x() as isize), -(start.y() as isize)).unwrap();
            let moved = point.translate(inverse).unwrap();
            proof {
                Point::lemma_with_coords(point@.0 - start@.0, point@.1 - start@.1);
                Point::lemma_view_eq(moved, shifted(point, -start@.0, -start@.1));
            }
            return self.overlay.look(moved);
        }
        self.base.look(point)
    }

    fn size(&self) -> (r: Size) {
        self.base.size()
    }
}

} // verus!
