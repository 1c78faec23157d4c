use vstd::prelude::*;

use crate::component::primitive::{Point, Size};
use crate::component::primitive::point::lemma_index_bound;
use crate::error::{IndexError, IndexResult};
use crate::lens::{FromLens, Lens, look_result};
use crate::lens::image::ImageLens;
use crate::pixel::{Pixel, PIXEL_SIZE};

verus! {

/// Error returned when an [`Image`] cannot be created.
#[derive(Debug, PartialEq, Eq, Structural, Clone, Copy)]
pub enum CreationError {
    SizePixelsMismatch,
}

pub type ResultError<T> = Result<T, CreationError>;

/// An in-memory RGBA image: a size and its pixels, row by row.
#[derive(Debug)]
pub struct Image {
    size: Size,
    pixels: Vec<Pixel>,
}

impl View for Image {
    /// `(size, pixels row by row)`.
    type V = (Size, Seq<Pixel>);

    closed spec fn view(&self) -> (Size, Seq<Pixel>) {
        (self.size, self.pixels@)
    }
}

/// Channel `c` of `p`: red for 0, green for 1, blue for 2 and alpha otherwise.
pub open spec fn rgba_channel(p: Pixel, c: int) -> u8 {
    if c == 0 {
        p@.0
    } else if c == 1 {
        p@.1
    } else if c == 2 {
        p@.2
    } else {
        p@.3
    }
}

/// The raw RGBA bytes of `pixels`: the red, green, blue and alpha channels of each
/// pixel, pixel after pixel.
pub open spec fn rgba_bytes(pixels: Seq<Pixel>) -> Seq<u8> {
    Seq::new(4 * pixels.len(), |k: int| rgba_channel(pixels[k / 4], k % 4))
}

/// Row-major position of `point` in a structure of the given size.
pub open spec fn index_of(size: Size, point: Point) -> int {
    point@.1 * size@.0 + point@.0
}

/// The point at row-major position `index` in a structure of the given size.
pub open spec fn point_at(size: Size, index: int) -> Point {
    Point::with_coords(index % size@.0, index / size@.0)
}

/// `point_at` has the coordinates of a row-major position.
pub proof fn lemma_point_at(size: Size, index: int) -> (p: Point)
    requires
        crate::component::primitive::size::valid_dims(size@.0, size@.1),
        0 <= index < size.spec_area(),
    ensures
        p == point_at(size, index),
        p@ == (index % size@.0, index / size@.0),
        size.spec_contains(p),
{
    crate::component::primitive::point::lemma_index_split(index, size@.0, size@.1);
    Point::lemma_with_coords(index % size@.0, index / size@.0);
    point_at(size, index)
}

/// A point within a size is found again at its row-major position.
pub proof fn lemma_index_point(size: Size, p: Point)
    requires
        crate::component::primitive::size::valid_dims(size@.0, size@.1),
        size.spec_contains(p),
    ensures
        0 <= index_of(size, p) < size.spec_area(),
        point_at(size, index_of(size, p)) == p,
{
    p.lemma_view_nonneg();
    lemma_index_bound(p@.0, p@.1, size@.0, size@.1);
    vstd::arithmetic::div_mod::lemma_fundamental_div_mod_converse(index_of(size, p), size@.0, p@.1, p@.0);
    Point::lemma_with_coords(p@.0, p@.1);
    Point::lemma_view_eq(point_at(size, index_of(size, p)), p);
}

impl Image {
    #[verifier::type_invariant]
    spec fn inv(self) -> bool {
        self.pixels@.len() == self.size.spec_area()
    }

    /// The pixel at `point`; meaningful within the image's size.
    pub open spec fn spec_pixel(self, point: Point) -> Pixel {
        self@.1[index_of(self@.0, point)]
    }

    /// Create an [`Image`] with the given size and pixels, row by row.
    ///
    /// Fails with `SizePixelsMismatch` unless `pixels` holds exactly `size.area()` pixels.
    pub fn new(size: Size, pixels: Vec<Pixel>) -> (r: ResultError<Image>)
        ensures
            pixels@.len() == size.spec_area() <==> r is Ok,
            r is Ok ==> r->Ok_0@ == (size, pixels@),
            r is Err ==> r == Err::<Image, CreationError>(CreationError::SizePixelsMismatch),
    {
        if pixels.len() != size.area() {
            return Err(CreationError::SizePixelsMismatch);
        }
        Ok(Image { size, pixels })
    }

    /// Create an [`Image`] of the given size with every pixel equal to [`Pixel::zero`].
    pub fn empty(size: Size) -> (r: Image)
        ensures
            r@.0 == size,
            r@.1.len() == size.spec_area(),
            forall|i: int| 0 <= i < r@.1.len() ==> #[trigger] r@.1[i]@ == (0u8, 0u8, 0u8, 0u8),
    {
        let area = size.area();
        let mut pixels: Vec<Pixel> = Vec::new();
        while pixels.len() < area
            invariant
                pixels@.len() <= area,
                forall|i: int| 0 <= i < pixels@.len() ==> #[trigger] pixels@[i]@ == (0u8, 0u8, 0u8, 0u8),
            decreases area - pixels@.len(),
        {
            pixels.push(Pixel::zero());
        }
        Image { size, pixels }
    }

    /// Get the [`Image`]'s [`Size`].
    pub fn size(&self) -> (r: Size)
        ensures
            r == self@.0,
            self@.1.len() == r.spec_area(),
    {
        proof {
            use_type_invariant(self);
        }
        self.size
    }

    /// Get the pixel at `point`, or `OutOfBounds` if `point` lies outside the image.
    pub fn pixel(&self, point: Point) -> (r: IndexResult<&Pixel>)
        ensures
            r == look_result(self@.0, point, &self.spec_pixel(point)),
    {
        proof {
            use_type_invariant(self);
        }
        let index = match point.index(self.size) {
            Ok(index) => index,
            Err(e) => return Err(e),
        };
        Ok(&self.pixels[index])
    }

    /// Get the pixel at `point` for writing, or `OutOfBounds` if `point` lies outside the
    /// image.
    pub fn pixel_mut(&mut self, point: Point) -> (r: IndexResult<&mut Pixel>)
        ensures
            old(self)@.0.spec_contains(point) <==> r is Ok,
            r is Ok ==> *r->Ok_0 == old(self).spec_pixel(point),
            r is Ok ==> final(self)@ == (old(self)@.0, old(self)@.1.update(index_of(old(self)@.0, point), *final(r->Ok_0))),
            r is Err ==> r == Err::<&mut Pixel, IndexError>(IndexError::OutOfBounds) && final(self)@ == old(self)@,
    {
        proof {
            use_type_invariant(&*self);
        }
        let index = match point.index(self.size) {
            Ok(index) => index,
            Err(e) => return Err(e),
        };
        Ok(&mut self.pixels[index])
    }

    /// Get the raw RGBA buffer of the image: the channels of each pixel, pixel after pixel.
    pub fn buffer(&self) -> (r: Vec<u8>)
        ensures
            r@.len() == PIXEL_SIZE * self@.1.len(),
            forall|i: int| #![trigger self@.1[i]] 0 <= i < self@.1.len() ==> {
                &&& r@[4 * i] == self@.1[i]@.0
                &&& r@[4 * i + 1] == self@.1[i]@.1
                &&& r@[4 * i + 2] == self@.1[i]@.2
                &&& r@[4 * i + 3] == self@.1[i]@.3
            },
            r@ == rgba_bytes(self@.1),
    {
        let mut buffer: Vec<u8> = Vec::new();
        let n = self.pixels.len();
        let mut i: usize = 0;
        while i < n
            invariant
                n == self.pixels@.len(),
                i <= n,
                buffer@.len() == 4 * i,
                forall|j: int| #![trigger self.pixels@[j]] 0 <= j < i ==> {
                    &&& buffer@[4 * j] == self.pixels@[j]@.0
                    &&& buffer@[4 * j + 1] == self.pixels@[j]@.1
                    &&& buffer@[4 * j + 2] == self.pixels@[j]@.2
                    &&& buffer@[4 * j + 3] == self.pixels@[j]@.3
                },
            decreases n - i,
        {
            let px = self.pixels[i];
            buffer.push(px.r());
            buffer.push(px.g());
            buffer.push(px.b());
            buffer.push(px.a());
            i = i + 1;
        }
        proof {
            let pixels = self.pixels@;
            assert forall|k: int| 0 <= k < 4 * n implies #[trigger] buffer@[k] == rgba_bytes(pixels)[k] by {
                let j = k / 4;
                assert(k == 4 * j + k % 4 && 0 <= k % 4 < 4 && 0 <= j < n) by (nonlinear_arith)
                    requires 0 <= k < 4 * n, j == k / 4;
                let c = k % 4;
                assert(buffer@[4 * j + c] == rgba_channel(pixels[j], c));
            }
            assert(buffer@ =~= rgba_bytes(pixels));
        }
        buffer
    }

    /// Get an [`ImageLens`] which borrows the [`Image`], to use with the [`Lens`] API.
    pub fn lens(&self) -> (r: ImageLens<'_>)
        ensures
            r.spec_size() == self@.0,
            forall|p: Point| #[trigger] r.spec_look(p) == self.spec_pixel(p),
    {
        ImageLens::new(self)
    }
}

impl FromLens<Pixel> for Image {
    /// Collect the values of `source` into an [`Image`] of its size.
    fn from_lens<S: Lens<Item = Pixel>>(source: S) -> (r: Image)
        ensures
            r@.0 == source.spec_size(),
            forall|p: Point| #[trigger] source.spec_size().spec_contains(p) ==> r.spec_pixel(p) == source.spec_look(p),
    {
        let size = source.size();
        let area = size.area();
        let _ = (size.width(), size.height());
        let mut pixels: Vec<Pixel> = Vec::new();
        let mut i: usize = 0;
        while i < area
            invariant
                size == source.spec_size(),
                crate::component::primitive::size::valid_dims(size@.0, size@.1),
                area == size.spec_area(),
                i <= area,
                pixels@.len() == i,
                forall|j: int| 0 <= j < i ==> #[trigger] pixels@[j] == source.spec_look(point_at(size, j)),
            decreases area - i,
        {
            let point = Point::from_index(i, size).unwrap();
            proof {
                let _ = lemma_point_at(size, i as int);
                Point::lemma_view_eq(point, point_at(size, i as int));
            }
            let value = source.look(point).unwrap();
            pixels.push(value);
            i = i + 1;
        }
        proof {
            assert forall|p: Point| #[trigger] size.spec_contains(p) implies pixels@[index_of(size, p)] == source.spec_look(p) by {
                lemma_index_point(size, p);
            }
        }
        Image { size, pixels }
    }
}

impl Clone for Image {
    fn clone(&self) -> (r: Image)
        ensures
            r@ == self@,
    {
        proof {
            use_type_invariant(self);
        }
        let mut pixels: Vec<Pixel> = Vec::new();
        let n = self.pixels.len();
        let mut i: usize = 0;
        while i < n
            invariant
                n == self.pixels@.len(),
                i <= n,
                pixels@ == self.pixels@.subrange(0, i as int),
            decreases n - i,
        {
            pixels.push(self.pixels[i]);
            i = i + 1;
        }
        Image { size: self.size, pixels }
    }
}


impl Image {
    /// Whether the image's pixels fill its size, row by row, which holds of every image.
    pub open spec fn well_formed(self) -> bool {
        &&& crate::component::primitive::size::valid_dims(self@.0@.0, self@.0@.1)
        &&& self@.1.len() == self@.0.spec_area()
    }
}

/// Two well-formed images of one size whose pixels agree at every point within it are
/// the same image.
pub proof fn law_pixelwise_equal(a: Image, b: Image)
    requires
        a.well_formed(),
        b.well_formed(),
        a@.0 == b@.0,
        forall|p: Point| #[trigger] a@.0.spec_contains(p) ==> a.spec_pixel(p) == b.spec_pixel(p),
    ensures
        a@ == b@,
{
    let size = a@.0;
    assert forall|i: int| 0 <= i < a@.1.len() implies a@.1[i] == b@.1[i] by {
        let p = lemma_point_at(size, i);
        vstd::arithmetic::div_mod::lemma_fundamental_div_mod(i, size@.0);
        vstd::arithmetic::mul::lemma_mul_is_commutative(size@.0, i / size@.0);
        assert(index_of(size, p) == i);
        assert(a.spec_pixel(p) == b.spec_pixel(p));
    }
    assert(a@.1 =~= b@.1);
}


/// Writing a pixel through [`Image::pixel_mut`] and reading the image again: the written
/// point gives the new pixel and every other point of the image keeps its pixel.
pub proof fn law_pixel_write_read(image: Image, updated: Image, point: Point, px: Pixel)
    requires
        image.well_formed(),
        image@.0.spec_contains(point),
        updated@ == (image@.0, image@.1.update(index_of(image@.0, point), px)),
    ensures
        updated.spec_pixel(point) == px,
        forall|q: Point| #[trigger] image@.0.spec_contains(q) && q != point ==> updated.spec_pixel(q) == image.spec_pixel(q),
{
    let size = image@.0;
    lemma_index_point(size, point);
    assert forall|q: Point| #[trigger] image@.0.spec_contains(q) && q != point implies updated.spec_pixel(q) == image.spec_pixel(q) by {
        lemma_index_point(size, q);
    }
}

} // verus!
