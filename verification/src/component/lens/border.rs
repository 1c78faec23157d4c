use vstd::prelude::*;

use crate::component::primitive::{Margin, Point, Size, SizeCreationError};
use crate::component::primitive::limits::lemma_dimension_max;
use crate::component::primitive::point::shifted;
use crate::component::primitive::size::{extend_result, size_result_view};
use crate::lens::Lens;
use crate::lens::overlay::{OverlayLens, OverlayLensCreationError, OverlayLensCreationResult, overlay_value};
use crate::lens::value::ValueLens;

verus! {

/// The value at `p` of `source` surrounded by a border of `margin` filled with `value`.
pub open spec fn bordered_value<S: Lens>(source: S, margin: Margin, value: S::Item, p: Point) -> S::Item {
    if margin@.3 <= p@.0 < margin@.3 + source.spec_size()@.0 && margin@.0 <= p@.1 < margin@.0 + source.spec_size()@.1 {
        source.spec_look(shifted(p, -margin@.3, -margin@.0))
    } else {
        value
    }
}

/// Create a [`Lens`] from `source` with a virtual border of `margin` whose points all hold
/// `value`.
///
/// Fails with `OverlayTooBig` when the bordered size would exceed `DIMENSION_MAX`.
pub fn value_border<S, T>(source: S, margin: Margin, value: T) -> (r: OverlayLensCreationResult<OverlayLens<ValueLens<T>, S>>)
    where
        S: Lens<Item = T>,
        T: Copy,
    ensures
        match extend_result(source.spec_size()@, margin@) {
            Ok(dims) => r is Ok && r->Ok_0.spec_size()@ == dims && forall|p: Point|
                #[trigger] r->Ok_0.spec_look(p) == bordered_value(source, margin, value, p),
            Err(_) => r == Err::<OverlayLens<ValueLens<T>, S>, OverlayLensCreationError>(OverlayLensCreationError::OverlayTooBig),
        },
{
    let source_size = source.size();
    let overlay_size = match source_size.extend_by_margin(margin) {
        Ok(size) => size,
        Err(_) => return Err(OverlayLensCreationError::OverlayTooBig),
    };
    let (top, right, bottom, left) = (margin.top(), margin.right(), margin.bottom(), margin.left());
    let (w, h) = (source_size.width(), source_size.height());
    let _ = (overlay_size.width(), overlay_size.height());
    proof {
        lemma_dimension_max();
    }
    let start = Point::new(left, top).unwrap();
    let base = ValueLens::new(value, overlay_size);
    let r = OverlayLens::new(base, source, start);
    proof {
        if r is Ok {
            assert forall|p: Point| #[trigger] r->Ok_0.spec_look(p) == bordered_value(source, margin, value, p) by {
                assert(r->Ok_0.spec_look(p) == overlay_value(base, source, start, p));
            }
        }
    }
    r
}

} // verus!
