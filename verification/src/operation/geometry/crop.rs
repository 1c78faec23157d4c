use vstd::prelude::*;

use crate::component::primitive::{Margin, Offset, Point, Size, SizeCreationError};
use crate::component::primitive::limits::lemma_dimension_max;
use crate::component::primitive::point::shifted;
use crate::component::primitive::size::{shrink_result, size_result_view, valid_dims};
use crate::image::Image;
use crate::lens::{FromLens, Lens};
use crate::lens::cloned::ClonedLens;
use crate::lens::remap::{RemapLens, Remapping};
use crate::pixel::Pixel;

verus! {

/// The [`Remapping`] that reads each point from the source moved right by the margin's
/// left component and down by its top component.
#[derive(Debug, Clone, Copy)]
pub struct CropRemapping {
    margin: Margin,
}

impl CropRemapping {
    /// The margin cut away.
    pub closed spec fn spec_margin(self) -> Margin {
        self.margin
    }
}

impl<S: Lens> Remapping<S> for CropRemapping {
    type Output = S::Item;

    open spec fn spec_defined(&self, source: S, point: Point) -> bool {
        &&& valid_dims(source.spec_size()@.0, source.spec_size()@.1)
        &&& point@.0 + self.spec_margin()@.3 < source.spec_size()@.0
        &&& point@.1 + self.spec_margin()@.0 < source.spec_size()@.1
    }

    open spec fn spec_remap(&self, source: S, point: Point) -> S::Item {
        source.spec_look(shifted(point, self.spec_margin()@.3, self.spec_margin()@.0))
    }

    fn remap(&self, source: &S, point: Point) -> (r: S::Item) {
        proof {
            lemma_dimension_max();
            self.margin.lemma_view_nonneg();
            point.lemma_view_nonneg();
        }
        let (top, left) = (self.margin.top(), self.margin.left());
        let size = source.size();
        let _ = (size.width(), size.height(), point.x(), point.y());
        let offset = Offset::new(left as isize, top as isize).unwrap();
        let source_point = point.translate(offset).unwrap();
        proof {
            Point::lemma_with_coords(point@.0 + left, point@.1 + top);
            Point::lemma_view_eq(source_point, shifted(point, left as int, top as int));
        }
        source.look(source_point).unwrap()
    }
}

/// A lens over `source` with `margin` cut away from each side.
///
/// Fails as [`Size::shrink_by_margin`] does when nothing would be left.
pub fn crop_lens<S: Lens<Item = Pixel>>(source: S, margin: Margin) -> (r: Result<RemapLens<S, CropRemapping>, SizeCreationError>)
    ensures
        match shrink_result(source.spec_size()@, margin@) {
            Ok(dims) => r is Ok && r->Ok_0.spec_size()@ == dims && forall|p: Point|
                #[trigger] r->Ok_0.spec_look(p) == source.spec_look(shifted(p, margin@.3, margin@.0)),
            Err(e) => r == Err::<RemapLens<S, CropRemapping>, SizeCreationError>(e),
        },
{
    let size = source.size();
    let _ = (size.width(), size.height());
    let new_size = match size.shrink_by_margin(margin) {
        Ok(new_size) => new_size,
        Err(e) => return Err(e),
    };
    let remapping = CropRemapping { margin };
    proof {
        margin.lemma_view_nonneg();
    }
    Ok(RemapLens::new(source, remapping, new_size))
}

/// `image` with `margin` cut away from each side.
///
/// Fails as [`Size::shrink_by_margin`] does when nothing would be left.
pub fn crop(image: &Image, margin: Margin) -> (r: Result<Image, SizeCreationError>)
    ensures
        match shrink_result(image@.0@, margin@) {
            Ok(dims) => r is Ok && r->Ok_0@.0@ == dims && forall|p: Point|
                #[trigger] r->Ok_0@.0.spec_contains(p) ==> r->Ok_0.spec_pixel(p) == image.spec_pixel(shifted(p, margin@.3, margin@.0)),
            Err(e) => r == Err::<Image, SizeCreationError>(e),
        },
{
    let lens = match crop_lens(ClonedLens::new(image.lens()), margin) {
        Ok(lens) => lens,
        Err(e) => return Err(e),
    };
    Ok(Image::from_lens(lens))
}


/// Cropping with the zero margin keeps the size and reads every point from itself, so
/// [`crop`] with [`Margin::zero`] gives the image back.
pub proof fn law_crop_zero_margin(image: Image, out: Image)
    requires
        image.well_formed(),
        out.well_formed(),
        ({
            let zero = (0int, 0int, 0int, 0int);
            &&& shrink_result(image@.0@, zero) is Ok
            &&& out@.0@ == shrink_result(image@.0@, zero)->Ok_0
            &&& forall|p: Point| #[trigger] out@.0.spec_contains(p) ==> out.spec_pixel(p) == image.spec_pixel(shifted(p, 0, 0))
        }),
    ensures
        shrink_result(image@.0@, (0int, 0int, 0int, 0int)) == Ok::<(int, int), SizeCreationError>(image@.0@),
        out@ == image@,
{
    Size::lemma_view_eq(out@.0, image@.0);
    assert forall|p: Point| #[trigger] image@.0.spec_contains(p) implies out.spec_pixel(p) == image.spec_pixel(p) by {
        p.lemma_view_nonneg();
        Point::lemma_with_coords(p@.0, p@.1);
        Point::lemma_view_eq(shifted(p, 0, 0), p);
    }
    crate::image::law_pixelwise_equal(out, image);
}

} // verus!
