use vstd::prelude::*;

use core::cmp::Ordering;

use crate::component::primitive::{Point, Size};
use crate::component::primitive::limits::lemma_dimension_max;
use crate::component::primitive::order::componentwise_order;
use crate::component::primitive::point::shifted;
use crate::image::Image;
use crate::ops::blur::median::out_px;
use crate::pixel::Pixel;

verus! {

/// Error returned by [`crop`].
#[derive(Debug, PartialEq, Eq, Structural, Clone, Copy)]
pub enum Error {
    OffsetTooBig,
    SizeTooBig,
    OutOfBounds,
}

pub type Result<T> = core::result::Result<T, Error>;

/// Whether `a` is strictly greater than `b` in the componentwise order: no smaller in
/// either component, and not equal.
pub open spec fn strictly_greater(a: (int, int), b: (int, int)) -> bool {
    componentwise_order(a, b) == Some(Ordering::Greater)
}

/// Whether `image` is strictly greater than `size`, as [`Size`]'s `partial_cmp` orders.
fn exceeds(image: &Size, size: &Size) -> (r: bool)
    ensures
        r == strictly_greater(image@, size@),
{
    match image.partial_cmp(size) {
        Some(Ordering::Greater) => true,
        _ => false,
    }
}

/// The error [`crop`] returns for an image of size `image` cut to `size` at `offset`, or
/// `None` if it succeeds.
pub open spec fn crop_error(image: (int, int), size: (int, int), offset: (int, int)) -> Option<Error> {
    if !strictly_greater(image, size) {
        Some(Error::SizeTooBig)
    } else if image.0 < offset.0 || image.1 < offset.1 {
        Some(Error::OffsetTooBig)
    } else if image.0 < offset.0 + size.0 || image.1 < offset.1 + size.1 {
        Some(Error::OutOfBounds)
    } else {
        None
    }
}

/// Cut out of `image` the area of the given size whose top left corner is `offset`.
///
/// The image must be strictly greater than `size` in the componentwise order (no smaller
/// in either dimension and not equal), else `SizeTooBig`; the offset must lie within the
/// image, else `OffsetTooBig`; and the area must fit in the image, else `OutOfBounds`.
pub fn crop(image: &Image, size: Size, offset: (usize, usize)) -> (r: Result<Image>)
    ensures
        r is Err <==> crop_error(image@.0@, size@, (offset.0 as int, offset.1 as int)) is Some,
        r matches Err(e) ==> crop_error(image@.0@, size@, (offset.0 as int, offset.1 as int)) == Some(e),
        r matches Ok(out) ==> {
            &&& out@.0 == size
            &&& forall|p: Point| #[trigger] size.spec_contains(p) ==> out.spec_pixel(p) == image.spec_pixel(
                shifted(p, offset.0 as int, offset.1 as int),
            )
        },
{
    let image_size = image.size();
    if !exceeds(&image_size, &size) {
        return Err(Error::SizeTooBig);
    }
    let (width, height) = (image_size.width(), image_size.height());
    let (out_width, out_height) = (size.width(), size.height());
    if width < offset.0 || height < offset.1 {
        return Err(Error::OffsetTooBig);
    }
    if width - offset.0 < out_width || height - offset.1 < out_height {
        return Err(Error::OutOfBounds);
    }
    proof {
        lemma_dimension_max();
    }
    let mut pixels: Vec<Pixel> = Vec::new();
    let mut y: usize = 0;
    while y < out_height
        invariant
            width == image@.0@.0,
            height == image@.0@.1,
            out_width == size@.0,
            out_height == size@.1,
            1 <= out_width,
            offset.0 + out_width <= width,
            offset.1 + out_height <= height,
            height < usize::MAX,
            width < usize::MAX,
            y <= out_height,
            pixels@.len() == y * out_width,
            forall|xx: int, yy: int| 0 <= xx < out_width && 0 <= yy < y ==> #[trigger] out_px(pixels@, out_width as int, xx, yy)
                == crate::ops::blur::median::px_at(*image, xx + offset.0, yy + offset.1),
        decreases out_height - y,
    {
        let ghost before = pixels@;
        let mut x: usize = 0;
        while x < out_width
            invariant
                width == image@.0@.0,
                height == image@.0@.1,
                offset.0 + out_width <= width,
                offset.1 + out_height <= height,
                height < usize::MAX,
                width < usize::MAX,
                x <= out_width,
                y < out_height,
                before.len() == y * out_width,
                pixels@.len() == y * out_width + x,
                pixels@.subrange(0, before.len() as int) == before,
                forall|k: int| 0 <= k < x ==> #[trigger] pixels@[y * out_width + k]
                    == crate::ops::blur::median::px_at(*image, k + offset.0, y + offset.1),
            decreases out_width - x,
        {
            let px = crate::ops::blur::median::pixel_at(image, x + offset.0, y + offset.1);
            pixels.push(px);
            proof {
                assert(pixels@.subrange(0, before.len() as int) =~= before);
            }
            x = x + 1;
        }
        proof {
            assert forall|xx: int, yy: int| 0 <= xx < out_width && 0 <= yy < y + 1 implies #[trigger] out_px(
                pixels@,
                out_width as int,
                xx,
                yy,
            ) == crate::ops::blur::median::px_at(*image, xx + offset.0, yy + offset.1) by {
                if yy < y {
                    assert(0 <= yy * out_width + xx < y * out_width) by (nonlinear_arith)
                        requires 0 <= xx < out_width, 0 <= yy < y;
                    assert(pixels@[yy * out_width + xx] == before[yy * out_width + xx]);
                    assert(out_px(before, out_width as int, xx, yy) == out_px(pixels@, out_width as int, xx, yy));
                } else {
                    assert(pixels@[y * out_width + xx] == crate::ops::blur::median::px_at(*image, xx + offset.0, y + offset.1));
                }
            }
            assert((y + 1) * out_width == y * out_width + out_width) by (nonlinear_arith);
        }
        y = y + 1;
    }
    proof {
        assert(pixels@.len() == size.spec_area()) by (nonlinear_arith)
            requires pixels@.len() == out_height * out_width, size@ == (out_width as int, out_height as int), size.spec_area() == size@.0 * size@.1;
    }
    let out = Image::new(size, pixels).unwrap();
    proof {
        assert forall|p: Point| #[trigger] size.spec_contains(p) implies out.spec_pixel(p) == image.spec_pixel(
            shifted(p, offset.0 as int, offset.1 as int),
        ) by {
            p.lemma_view_nonneg();
            assert(out_px(pixels@, out_width as int, p@.0, p@.1) == out.spec_pixel(p));
        }
    }
    Ok(out)
}

} // verus!
