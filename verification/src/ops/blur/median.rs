use vstd::prelude::*;

use crate::collection::tracking_set::{TrackingSet, is_mid};
use crate::component::primitive::{Point, Size};
use crate::component::primitive::limits::lemma_dimension_max;
use crate::component::primitive::size::valid_dims;
use crate::image::Image;
use crate::pixel::Pixel;

verus! {

/// Error returned by [`median_blur`].
#[derive(Debug, PartialEq, Eq, Structural, Clone, Copy)]
pub enum Error {
    RadiusTooBig,
}

pub type Result<T> = core::result::Result<T, Error>;

/// The model of a [`TrackingSet`]: its queued values and its set.
pub type TrackingState = (Seq<u8>, Set<u8>);

/// The state after pushing `v`.
pub open spec fn ts_push(t: TrackingState, v: u8) -> TrackingState {
    (t.0.push(v), t.1.insert(v))
}

/// The state after popping once.
pub open spec fn ts_pop(t: TrackingState) -> TrackingState {
    if t.0.len() == 0 {
        t
    } else {
        (t.0.drop_first(), t.1.remove(t.0[0]))
    }
}

/// The state after popping `n` times.
pub open spec fn ts_pop_n(t: TrackingState, n: nat) -> TrackingState
    decreases n,
{
    if n == 0 {
        t
    } else {
        ts_pop(ts_pop_n(t, (n - 1) as nat))
    }
}

/// The state after pushing the values of `s` in order.
pub open spec fn ts_push_seq(t: TrackingState, s: Seq<u8>) -> TrackingState
    decreases s.len(),
{
    if s.len() == 0 {
        t
    } else {
        ts_push(ts_push_seq(t, s.drop_last()), s.last())
    }
}

/// Channel `c` of `p`: red for 0, green for 1, blue otherwise.
pub open spec fn channel(p: Pixel, c: int) -> u8 {
    if c == 0 {
        p@.0
    } else if c == 1 {
        p@.1
    } else {
        p@.2
    }
}

/// The pixel of `image` at `(x, y)`.
pub open spec fn px_at(image: Image, x: int, y: int) -> Pixel {
    image.spec_pixel(Point::with_coords(x, y))
}

/// The values pushed for channel `c` before the first pixel of output row `row`: `d`
/// zeros, then the first `d - 1` columns of the window's `d` rows, row by row.
pub open spec fn init_values(image: Image, d: int, row: int, c: int) -> Seq<u8> {
    Seq::new(d as nat, |k: int| 0u8) + Seq::new((d * (d - 1)) as nat, |k: int| channel(px_at(image, k % (d - 1), row + k / (d - 1)), c))
}

/// The `d` values of channel `c` of column `x` of `image`, from row `y` down.
pub open spec fn column_values(image: Image, x: int, y: int, d: int, c: int) -> Seq<u8> {
    Seq::new(d as nat, |k: int| channel(px_at(image, x, y + k), c))
}

/// The state of channel `c`'s set of output row `row` after its first `n` pixels: each
/// pixel pops `d` values and pushes the column at its own `x`.
pub open spec fn median_state(image: Image, d: int, row: int, n: nat, c: int) -> TrackingState
    decreases n,
{
    if n == 0 {
        ts_push_seq((Seq::empty(), Set::empty()), init_values(image, d, row, c))
    } else {
        ts_push_seq(ts_pop_n(median_state(image, d, row, (n - 1) as nat, c), d as nat), column_values(image, n - 1, row, d, c))
    }
}

/// Whether `px` is the output of the median blur of `image` with window side `d` at
/// `(x, y)`: each of red, green and blue is the middle element of its set there, and
/// alpha is that of `image` at `(x, y)`.
pub open spec fn is_median_pixel(image: Image, d: int, x: int, y: int, px: Pixel) -> bool {
    &&& is_mid(median_state(image, d, y, (x + 1) as nat, 0).1, px@.0)
    &&& is_mid(median_state(image, d, y, (x + 1) as nat, 1).1, px@.1)
    &&& is_mid(median_state(image, d, y, (x + 1) as nat, 2).1, px@.2)
    &&& px@.3 == px_at(image, x, y)@.3
}

struct MedianSets {
    r: TrackingSet,
    g: TrackingSet,
    b: TrackingSet,
}

impl MedianSets {
    spec fn channel_view(self, c: int) -> TrackingState {
        if c == 0 {
            self.r@
        } else if c == 1 {
            self.g@
        } else {
            self.b@
        }
    }

    /// Pop `count` values from each set.
    fn pop(&mut self, count: usize)
        ensures
            forall|c: int| #[trigger] final(self).channel_view(c) == ts_pop_n(old(self).channel_view(c), count as nat),
    {
        let mut i: usize = 0;
        while i < count
            invariant
                i <= count,
                forall|c: int| #[trigger] self.channel_view(c) == ts_pop_n(old(self).channel_view(c), i as nat),
            decreases count - i,
        {
            let ghost prev = *self;
            self.r.pop();
            self.g.pop();
            self.b.pop();
            proof {
                assert forall|c: int| #[trigger] self.channel_view(c) == ts_pop_n(old(self).channel_view(c), (i + 1) as nat) by {
                    assert(prev.channel_view(c) == ts_pop_n(old(self).channel_view(c), i as nat));
                }
            }
            i = i + 1;
        }
    }

    /// Push the red, green and blue channels of `px` into their sets.
    fn push(&mut self, px: Pixel)
        ensures
            forall|c: int| #[trigger] final(self).channel_view(c) == ts_push(old(self).channel_view(c), channel(px, c)),
    {
        self.r.push(px.r());
        self.g.push(px.g());
        self.b.push(px.b());
    }
}

/// Pushing one more value of a sequence.
proof fn lemma_push_seq_step(t: TrackingState, s: Seq<u8>, i: int)
    requires
        0 <= i < s.len(),
    ensures
        ts_push_seq(t, s.subrange(0, i + 1)) == ts_push(ts_push_seq(t, s.subrange(0, i)), s[i]),
{
    assert(s.subrange(0, i + 1).drop_last() =~= s.subrange(0, i));
}

/// The pixel of `image` at `(x, y)`, which lies within it.
pub(crate) fn pixel_at(image: &Image, x: usize, y: usize) -> (r: Pixel)
    requires
        x < image@.0@.0,
        y < image@.0@.1,
    ensures
        r == px_at(*image, x as int, y as int),
{
    let size = image.size();
    let _ = (size.width(), size.height());
    proof {
        lemma_dimension_max();
    }
    let point = Point::new(x, y).unwrap();
    proof {
        Point::lemma_with_coords(x as int, y as int);
        Point::lemma_view_eq(point, Point::with_coords(x as int, y as int));
    }
    *image.pixel(point).unwrap()
}

/// Fill the sets for output row `row_y`: `diameter` zeros, then the first
/// `diameter - 1` columns of the window, row by row.
fn init_sets(image: &Image, diameter: usize, row_y: usize) -> (r: MedianSets)
    requires
        1 <= diameter,
        diameter <= image@.0@.0,
        row_y + diameter <= image@.0@.1,
    ensures
        forall|c: int| #[trigger] r.channel_view(c) == ts_push_seq(
            (Seq::empty(), Set::empty()),
            init_values(*image, diameter as int, row_y as int, c),
        ),
{
    let size = image.size();
    let _ = (size.width(), size.height());
    proof {
        lemma_dimension_max();
    }
    let mut sets = MedianSets { r: TrackingSet::new(), g: TrackingSet::new(), b: TrackingSet::new() };
    let ghost empty: TrackingState = (Seq::empty(), Set::empty());
    let ghost d = diameter as int;
    let mut i: usize = 0;
    while i < diameter
        invariant
            i <= diameter,
            d == diameter,
            forall|c: int| #[trigger] sets.channel_view(c) == ts_push_seq(empty, init_values(*image, d, row_y as int, c).subrange(0, i as int)),
        decreases diameter - i,
    {
        proof {
            assert forall|c: int| #[trigger] ts_push_seq(empty, init_values(*image, d, row_y as int, c).subrange(0, i + 1)) == ts_push(sets.channel_view(c), channel(Pixel::with_channels((0u8, 0u8, 0u8, 0u8)), c)) by {
                lemma_push_seq_step(empty, init_values(*image, d, row_y as int, c), i as int);
                Pixel::lemma_with_channels((0u8, 0u8, 0u8, 0u8));
            }
        }
        let zero = Pixel::zero();
        proof {
            Pixel::lemma_with_channels((0u8, 0u8, 0u8, 0u8));
            Pixel::lemma_view_eq(zero, Pixel::with_channels((0u8, 0u8, 0u8, 0u8)));
        }
        sets.push(zero);
        i = i + 1;
    }
    let mut y: usize = 0;
    while y < diameter
        invariant
            d == diameter,
            1 <= diameter <= image@.0@.0,
            row_y + diameter <= image@.0@.1,
            image@.0@.1 < usize::MAX,
            y <= diameter,
            forall|c: int| #[trigger] sets.channel_view(c) == ts_push_seq(
                empty,
                init_values(*image, d, row_y as int, c).subrange(0, d + y * (d - 1)),
            ),
        decreases diameter - y,
    {
        let mut x: usize = 0;
        while x < diameter - 1
            invariant
                d == diameter,
                1 <= diameter <= image@.0@.0,
                row_y + diameter <= image@.0@.1,
                image@.0@.1 < usize::MAX,
                y < diameter,
                x <= diameter - 1,
                forall|c: int| #[trigger] sets.channel_view(c) == ts_push_seq(
                    empty,
                    init_values(*image, d, row_y as int, c).subrange(0, d + y * (d - 1) + x),
                ),
            decreases diameter - 1 - x,
        {
            let px = pixel_at(image, x, y + row_y);
            proof {
                let k = y * (d - 1) + x;
                assert(0 <= k < d * (d - 1)) by (nonlinear_arith)
                    requires k == y * (d - 1) + x, 0 <= x < d - 1, 0 <= y < d;
                vstd::arithmetic::div_mod::lemma_fundamental_div_mod_converse(k, d - 1, y as int, x as int);
                assert forall|c: int| #[trigger] ts_push_seq(empty, init_values(*image, d, row_y as int, c).subrange(0, d + k + 1)) == ts_push(sets.channel_view(c), channel(px, c)) by {
                    lemma_push_seq_step(empty, init_values(*image, d, row_y as int, c), d + k);
                }
            }
            sets.push(px);
            x = x + 1;
        }
        proof {
            assert(d + y * (d - 1) + (d - 1) == d + (y + 1) * (d - 1)) by (nonlinear_arith);
        }
        y = y + 1;
    }
    proof {
        assert forall|c: int| #[trigger] sets.channel_view(c) == ts_push_seq(empty, init_values(*image, d, row_y as int, c)) by {
            assert(init_values(*image, d, row_y as int, c).subrange(0, d + d * (d - 1)) =~= init_values(*image, d, row_y as int, c));
        }
    }
    sets
}

/// Pushing values keeps a finite set finite.
proof fn lemma_push_seq_finite(t: TrackingState, s: Seq<u8>)
    requires
        t.1.finite(),
    ensures
        ts_push_seq(t, s).1.finite(),
        s.len() > 0 ==> ts_push_seq(t, s).1.contains(s.last()),
    decreases s.len(),
{
    if s.len() > 0 {
        lemma_push_seq_finite(t, s.drop_last());
    }
}

/// Popping values keeps a finite set finite.
proof fn lemma_pop_n_finite(t: TrackingState, n: nat)
    requires
        t.1.finite(),
    ensures
        ts_pop_n(t, n).1.finite(),
    decreases n,
{
    if n > 0 {
        lemma_pop_n_finite(t, (n - 1) as nat);
    }
}

/// Every set of the median blur is finite.
proof fn lemma_state_finite(image: Image, d: int, row: int, n: nat, c: int)
    ensures
        median_state(image, d, row, n, c).1.finite(),
    decreases n,
{
    if n == 0 {
        lemma_push_seq_finite((Seq::empty(), Set::empty()), init_values(image, d, row, c));
    } else {
        lemma_state_finite(image, d, row, (n - 1) as nat, c);
        lemma_pop_n_finite(median_state(image, d, row, (n - 1) as nat, c), d as nat);
        lemma_push_seq_finite(
            ts_pop_n(median_state(image, d, row, (n - 1) as nat, c), d as nat),
            column_values(image, n - 1, row, d, c),
        );
    }
}

/// The middle element of a set that holds `v`.
fn mid_of(set: &TrackingSet, Ghost(v): Ghost<u8>) -> (r: u8)
    requires
        set@.1.finite(),
        set@.1.contains(v),
    ensures
        is_mid(set@.1, r),
{
    proof {
        vstd::set_lib::lemma_set_empty_equivalency_len(set@.1);
    }
    *set.mid().unwrap()
}

/// Compute output pixel `x` of output row `row`, the sets being in their state after
/// the pixels before it: pop `d` values from each set, push column `x` of the window,
/// and take the middle element of each set.
fn process_pixel(x: usize, row: usize, image: &Image, d: usize, sets: &mut MedianSets) -> (r: Pixel)
    requires
        1 <= d,
        x < image@.0@.0,
        row + d <= image@.0@.1,
        forall|c: int| #[trigger] old(sets).channel_view(c) == median_state(*image, d as int, row as int, x as nat, c),
    ensures
        forall|c: int| #[trigger] final(sets).channel_view(c) == median_state(*image, d as int, row as int, (x + 1) as nat, c),
        is_median_pixel(*image, d as int, x as int, row as int, r),
{
    let ghost di = d as int;
    let size = image.size();
    let _ = (size.width(), size.height());
    proof {
        lemma_dimension_max();
    }
    sets.pop(d);
    let ghost popped = *sets;
    let mut k: usize = 0;
    while k < d
        invariant
            di == d,
            1 <= d,
            x < image@.0@.0,
            row + d <= image@.0@.1,
            image@.0@.1 < usize::MAX,
            k <= d,
            forall|c: int| #[trigger] sets.channel_view(c) == ts_push_seq(
                popped.channel_view(c),
                column_values(*image, x as int, row as int, di, c).subrange(0, k as int),
            ),
        decreases d - k,
    {
        let px = pixel_at(image, x, row + k);
        proof {
            assert forall|c: int| #[trigger] ts_push_seq(popped.channel_view(c), column_values(*image, x as int, row as int, di, c).subrange(0, k + 1)) == ts_push(sets.channel_view(c), channel(px, c)) by {
                lemma_push_seq_step(popped.channel_view(c), column_values(*image, x as int, row as int, di, c), k as int);
            }
        }
        sets.push(px);
        k = k + 1;
    }
    proof {
        assert forall|c: int| #[trigger] sets.channel_view(c) == median_state(*image, di, row as int, (x + 1) as nat, c) by {
            assert(column_values(*image, x as int, row as int, di, c).subrange(0, di) =~= column_values(*image, x as int, row as int, di, c));
        }
        assert forall|c: int| #[trigger] sets.channel_view(c).1.finite() && sets.channel_view(c).1.contains(channel(px_at(*image, x as int, row + di - 1), c)) by {
            let col = column_values(*image, x as int, row as int, di, c);
            lemma_state_finite(*image, di, row as int, x as nat, c);
            lemma_pop_n_finite(median_state(*image, di, row as int, x as nat, c), d as nat);
            lemma_push_seq_finite(ts_pop_n(median_state(*image, di, row as int, x as nat, c), d as nat), col);
        }
    }
    let last = pixel_at(image, x, row + d - 1);
    proof {
        assert(sets.channel_view(0) == sets.r@);
        assert(sets.channel_view(1) == sets.g@);
        assert(sets.channel_view(2) == sets.b@);
    }
    let r = mid_of(&sets.r, Ghost(last@.0));
    let g = mid_of(&sets.g, Ghost(last@.1));
    let b = mid_of(&sets.b, Ghost(last@.2));
    let a = pixel_at(image, x, row).a();
    let px = Pixel::new([r, g, b, a]);
    px
}

/// Output row `y` of the median blur of `image` with the given radius.
///
/// The window side is `2 * radius + 1`; pixel `x` of the row is given by
/// [`is_median_pixel`] at `(x, y)`.
pub fn median_blur_row(image: &Image, radius: usize, y: usize) -> (r: Vec<Pixel>)
    requires
        2 * radius + 1 <= image@.0@.0,
        y + 2 * radius + 1 <= image@.0@.1,
    ensures
        r@.len() == image@.0@.0 - 2 * radius,
        forall|x: int| 0 <= x < r@.len() ==> is_median_pixel(*image, 2 * radius + 1, x, y as int, #[trigger] r@[x]),
{
    let size = image.size();
    let width = size.width();
    let _ = size.height();
    proof {
        lemma_dimension_max();
    }
    let d = 2 * radius + 1;
    let out_width = width - 2 * radius;
    let mut sets = init_sets(image, d, y);
    let mut row: Vec<Pixel> = Vec::new();
    let mut x: usize = 0;
    while x < out_width
        invariant
            d == 2 * radius + 1,
            width == image@.0@.0,
            out_width == width - 2 * radius,
            d <= width,
            y + d <= image@.0@.1,
            x <= out_width,
            row@.len() == x,
            forall|c: int| #[trigger] sets.channel_view(c) == median_state(*image, d as int, y as int, x as nat, c),
            forall|k: int| 0 <= k < x ==> is_median_pixel(*image, d as int, k, y as int, #[trigger] row@[k]),
        decreases out_width - x,
    {
        let px = process_pixel(x, y, image, d, &mut sets);
        row.push(px);
        x = x + 1;
    }
    row
}

/// The pixel at `(x, y)` of row-major `pixels` with rows of `width` pixels.
pub open spec fn out_px(pixels: Seq<Pixel>, width: int, x: int, y: int) -> Pixel {
    pixels[y * width + x]
}

/// Positions in earlier rows come before the start of row `y`.
proof fn lemma_row_offset(xx: int, yy: int, y: int, width: int)
    requires
        0 <= xx < width,
        0 <= yy < y,
    ensures
        0 <= yy * width + xx < y * width,
{
    assert(0 <= yy * width + xx < y * width) by (nonlinear_arith)
        requires 0 <= xx < width, 0 <= yy < y;
}

/// The size of the median blur of `image` with the given radius: `2 * radius` pixels
/// narrower and lower than `image`.
///
/// Fails with `RadiusTooBig` when the window of side `2 * radius + 1` is wider or higher
/// than the image.
pub fn output_size(image: &Image, radius: usize) -> (r: Result<Size>)
    ensures
        r is Err <==> image@.0@.0 < 2 * radius + 1 || image@.0@.1 < 2 * radius + 1,
        r is Err ==> r == Err::<Size, Error>(Error::RadiusTooBig),
        r matches Ok(s) ==> s@ == (image@.0@.0 - 2 * radius, image@.0@.1 - 2 * radius),
{
    let size = image.size();
    let width = size.width();
    let height = size.height();
    if radius > (width - 1) / 2 || radius > (height - 1) / 2 {
        return Err(Error::RadiusTooBig);
    }
    Ok(Size::new(width - 2 * radius, height - 2 * radius).unwrap())
}

/// Perform a median blur on `image`, not in place, with a square window of side
/// `2 * radius + 1`; the result is `2 * radius` pixels narrower and lower.
///
/// Fails with `RadiusTooBig` when the window is wider or higher than the image. Each
/// output pixel is given by [`is_median_pixel`]: the red, green and blue channels are the
/// middle elements of three sets of channel values kept along each output row, and alpha
/// is that of `image` at the same point.
pub fn median_blur(image: &Image, radius: usize) -> (r: Result<Image>)
    ensures
        r is Err <==> image@.0@.0 < 2 * radius + 1 || image@.0@.1 < 2 * radius + 1,
        r is Err ==> r == Err::<Image, Error>(Error::RadiusTooBig),
        r matches Ok(out) ==> {
            &&& out@.0@ == (image@.0@.0 - 2 * radius, image@.0@.1 - 2 * radius)
            &&& forall|p: Point| #[trigger] out@.0.spec_contains(p) ==> is_median_pixel(
                *image,
                2 * radius + 1,
                p@.0,
                p@.1,
                out.spec_pixel(p),
            )
        },
{
    let out_size = match output_size(image, radius) {
        Ok(s) => s,
        Err(e) => return Err(e),
    };
    let size = image.size();
    let width = size.width();
    let height = size.height();
    proof {
        lemma_dimension_max();
    }
    let d = 2 * radius + 1;
    let out_width = out_size.width();
    let out_height = out_size.height();
    let mut pixels: Vec<Pixel> = Vec::new();
    let mut y: usize = 0;
    while y < out_height
        invariant
            d == 2 * radius + 1,
            width == image@.0@.0,
            height == image@.0@.1,
            out_width == width - 2 * radius,
            out_height == height - 2 * radius,
            d <= width,
            d <= height,
            y <= out_height,
            pixels@.len() == y * out_width,
            forall|xx: int, yy: int| 0 <= xx < out_width && 0 <= yy < y ==> is_median_pixel(
                *image,
                d as int,
                xx,
                yy,
                #[trigger] out_px(pixels@, out_width as int, xx, yy),
            ),
        decreases out_height - y,
    {
        let row = median_blur_row(image, radius, y);
        let ghost before = pixels@;
        let mut x: usize = 0;
        while x < out_width
            invariant
                row@.len() == out_width,
                forall|k: int| 0 <= k < row@.len() ==> is_median_pixel(*image, d as int, k, y as int, #[trigger] row@[k]),
                x <= out_width,
                y < out_height,
                before.len() == y * out_width,
                pixels@.len() == y * out_width + x,
                pixels@.subrange(0, before.len() as int) == before,
                forall|k: int| 0 <= k < x ==> #[trigger] pixels@[y * out_width + k] == row@[k],
            decreases out_width - x,
        {
            pixels.push(row[x]);
            proof {
                assert(pixels@.subrange(0, before.len() as int) =~= before);
            }
            x = x + 1;
        }
        proof {
            assert forall|xx: int, yy: int| 0 <= xx < out_width && 0 <= yy < y + 1 implies is_median_pixel(
                *image,
                d as int,
                xx,
                yy,
                #[trigger] out_px(pixels@, out_width as int, xx, yy),
            ) by {
                if yy < y {
                    lemma_row_offset(xx, yy, y as int, out_width as int);
                    assert(pixels@[yy * out_width + xx] == before[yy * out_width + xx]);
                    assert(out_px(before, out_width as int, xx, yy) == out_px(pixels@, out_width as int, xx, yy));
                } else {
                    assert(pixels@[y * out_width + xx] == row@[xx]);
                }
            }
            assert((y + 1) * out_width == y * out_width + out_width) by (nonlinear_arith);
        }
        y = y + 1;
    }
    proof {
        assert(pixels@.len() == out_size.spec_area()) by (nonlinear_arith)
            requires pixels@.len() == out_height * out_width, out_size@ == (out_width as int, out_height as int), out_size.spec_area() == out_size@.0 * out_size@.1;
    }
    let out = Image::new(out_size, pixels).unwrap();
    proof {
        assert forall|p: Point| #[trigger] out@.0.spec_contains(p) implies is_median_pixel(
            *image,
            d as int,
            p@.0,
            p@.1,
            out.spec_pixel(p),
        ) by {
            p.lemma_view_nonneg();
            assert(out_px(pixels@, out_width as int, p@.0, p@.1) == out.spec_pixel(p));
        }
    }
    Ok(out)
}


/// The state of every set of a median blur with window side 1: after `n >= 1` pixels it
/// holds just the channel value of the last column pushed.
proof fn lemma_unit_window_state(image: Image, row: int, n: nat, c: int)
    ensures
        n == 0 ==> median_state(image, 1, row, n, c) == (seq![0u8], set![0u8]),
        n >= 1 ==> median_state(image, 1, row, n, c) == (
            seq![channel(px_at(image, n - 1, row), c)],
            set![channel(px_at(image, n - 1, row), c)],
        ),
    decreases n,
{
    let empty: TrackingState = (Seq::empty(), Set::empty());
    if n == 0 {
        let init = init_values(image, 1, row, c);
        assert(init =~= seq![0u8]);
        assert(init.drop_last() =~= Seq::<u8>::empty());
        assert(ts_push_seq(empty, init.drop_last()) == empty);
        assert(ts_push_seq(empty, init) == ts_push(empty, 0u8));
        assert(seq![0u8] =~= Seq::<u8>::empty().push(0u8));
        assert(set![0u8] =~= Set::<u8>::empty().insert(0u8));
    } else {
        lemma_unit_window_state(image, row, (n - 1) as nat, c);
        let prev = median_state(image, 1, row, (n - 1) as nat, c);
        let popped = ts_pop_n(prev, 1);
        assert(ts_pop_n(prev, 0) == prev);
        assert(popped == ts_pop(prev));
        assert(popped.0 =~= Seq::<u8>::empty());
        assert(popped.1 =~= Set::<u8>::empty());
        let col = column_values(image, n - 1, row, 1, c);
        let v = channel(px_at(image, n - 1, row), c);
        assert(col =~= seq![v]);
        assert(col.drop_last() =~= Seq::<u8>::empty());
        assert(ts_push_seq(popped, col.drop_last()) == popped);
        assert(seq![v] =~= Seq::<u8>::empty().push(v));
        assert(set![v] =~= Set::<u8>::empty().insert(v));
    }
}

/// A median blur with radius 0 keeps every pixel: the output pixel at `(x, y)` is the
/// pixel of `image` there.
pub proof fn law_median_radius_zero(image: Image, x: int, y: int, px: Pixel)
    requires
        0 <= x,
        is_median_pixel(image, 1, x, y, px),
    ensures
        px@ == px_at(image, x, y)@,
{
    assert forall|c: int| 0 <= c < 3 implies is_mid(set![#[trigger] channel(px_at(image, x, y), c)], channel(px, c)) ==> channel(px, c) == channel(px_at(image, x, y), c) by {
    }
    lemma_unit_window_state(image, y, (x + 1) as nat, 0);
    lemma_unit_window_state(image, y, (x + 1) as nat, 1);
    lemma_unit_window_state(image, y, (x + 1) as nat, 2);
}


/// Pushing a nonempty sequence of copies of `v` appends them to the queue and adds `v`
/// to the set.
proof fn lemma_push_copies(t: TrackingState, s: Seq<u8>, v: u8)
    requires
        s.len() >= 1,
        forall|i: int| 0 <= i < s.len() ==> #[trigger] s[i] == v,
    ensures
        ts_push_seq(t, s) == (t.0 + s, t.1.insert(v)),
    decreases s.len(),
{
    if s.len() == 1 {
        assert(s.drop_last() =~= Seq::<u8>::empty());
        assert(ts_push_seq(t, s.drop_last()) == t);
        assert(t.0 + s =~= t.0.push(v));
    } else {
        lemma_push_copies(t, s.drop_last(), v);
        assert((t.0 + s.drop_last()).push(v) =~= t.0 + s);
        assert(t.1.insert(v).insert(v) =~= t.1.insert(v));
    }
}

/// Pushing the concatenation of two sequences pushes the first, then the second.
proof fn lemma_push_concat(t: TrackingState, a: Seq<u8>, b: Seq<u8>)
    ensures
        ts_push_seq(t, a + b) == ts_push_seq(ts_push_seq(t, a), b),
    decreases b.len(),
{
    if b.len() == 0 {
        assert(a + b =~= a);
    } else {
        lemma_push_concat(t, a, b.drop_last());
        assert((a + b).drop_last() =~= a + b.drop_last());
        assert((a + b).last() == b.last());
    }
}

/// Popping `k >= 1` values that all equal `v` drops them from the queue and removes `v`
/// from the set.
proof fn lemma_pop_copies(t: TrackingState, k: nat, v: u8)
    requires
        1 <= k <= t.0.len(),
        forall|i: int| 0 <= i < k ==> #[trigger] t.0[i] == v,
    ensures
        ts_pop_n(t, k) == (t.0.subrange(k as int, t.0.len() as int), t.1.remove(v)),
    decreases k,
{
    if k == 1 {
        assert(ts_pop_n(t, 0) == t);
        assert(t.0.drop_first() =~= t.0.subrange(1, t.0.len() as int));
    } else {
        lemma_pop_copies(t, (k - 1) as nat, v);
        let prev = ts_pop_n(t, (k - 1) as nat);
        assert(prev.0[0] == t.0[k - 1]);
        assert(prev.0.drop_first() =~= t.0.subrange(k as int, t.0.len() as int));
        assert(t.1.remove(v).remove(v) =~= t.1.remove(v));
    }
}

/// Whether every pixel of `image` is `u`.
pub open spec fn uniform(image: Image, u: Pixel) -> bool {
    forall|i: int, j: int| 0 <= i < image@.0@.0 && 0 <= j < image@.0@.1 ==> #[trigger] px_at(image, i, j) == u
}

/// On a uniform image, the sets of a median blur row hold only the image's channel value
/// after each pixel, and the queue holds `d * d` copies of it.
proof fn lemma_uniform_state(image: Image, u: Pixel, d: int, row: int, n: nat, c: int)
    requires
        uniform(image, u),
        1 <= d <= image@.0@.0,
        0 <= row,
        row + d <= image@.0@.1,
        n >= 1,
        n <= image@.0@.0,
    ensures
        median_state(image, d, row, n, c).1 == set![channel(u, c)],
        median_state(image, d, row, n, c).0.len() == d * d,
        forall|i: int| 0 <= i < d * d ==> #[trigger] median_state(image, d, row, n, c).0[i] == channel(u, c),
    decreases n,
{
    let v = channel(u, c);
    let col = column_values(image, n - 1, row, d, c);
    assert forall|i: int| 0 <= i < col.len() implies #[trigger] col[i] == v by {
        assert(px_at(image, n - 1, row + i) == u);
    }
    let prev = median_state(image, d, row, (n - 1) as nat, c);
    if n == 1 {
        let zeros = Seq::new(d as nat, |k: int| 0u8);
        let rest = Seq::new((d * (d - 1)) as nat, |k: int| channel(px_at(image, k % (d - 1), row + k / (d - 1)), c));
        let empty: TrackingState = (Seq::empty(), Set::empty());
        assert(prev == ts_push_seq(empty, zeros + rest));
        lemma_push_concat(empty, zeros, rest);
        lemma_push_copies(empty, zeros, 0u8);
        let after_zeros = ts_push_seq(empty, zeros);
        assert(empty.0 + zeros =~= zeros);
        assert(d * (d - 1) >= 0) by (nonlinear_arith)
            requires d >= 1;
        if d >= 2 {
            assert(d * (d - 1) >= 1) by (nonlinear_arith)
                requires d >= 2;
            assert forall|k: int| 0 <= k < rest.len() implies #[trigger] rest[k] == v by {
                assert(0 <= k / (d - 1) < d) by (nonlinear_arith)
                    requires 0 <= k < d * (d - 1), d >= 2;
                assert(0 <= k % (d - 1) < d - 1) by (nonlinear_arith)
                    requires d >= 2;
                assert(px_at(image, k % (d - 1), row + k / (d - 1)) == u);
            }
            lemma_push_copies(after_zeros, rest, v);
        } else {
            assert(rest =~= Seq::<u8>::empty());
            assert(ts_push_seq(after_zeros, rest) == after_zeros);
        }
        assert(prev.0 =~= zeros + rest);
        assert(prev.0.len() == d + d * (d - 1));
        lemma_pop_copies(prev, d as nat, 0u8);
        let popped = ts_pop_n(prev, d as nat);
        assert(popped.0 =~= rest);
        lemma_push_copies(popped, col, v);
        assert(median_state(image, d, row, n, c) == ts_push_seq(popped, col));
        assert(median_state(image, d, row, n, c).1 =~= set![v]);
        assert(d + d * (d - 1) == d * d) by (nonlinear_arith);
        assert(rest.len() + col.len() == d * d) by (nonlinear_arith)
            requires rest.len() == d * (d - 1), col.len() == d;
    } else {
        lemma_uniform_state(image, u, d, row, (n - 1) as nat, c);
        assert(d <= d * d) by (nonlinear_arith)
            requires d >= 1;
        lemma_pop_copies(prev, d as nat, v);
        let popped = ts_pop_n(prev, d as nat);
        lemma_push_copies(popped, col, v);
        assert(median_state(image, d, row, n, c) == ts_push_seq(popped, col));
        assert(median_state(image, d, row, n, c).1 =~= set![v]);
        assert forall|i: int| 0 <= i < d * d implies #[trigger] median_state(image, d, row, n, c).0[i] == v by {
            if i < d * d - d {
                assert(median_state(image, d, row, n, c).0[i] == prev.0[i + d]);
            } else {
                assert(median_state(image, d, row, n, c).0[i] == col[i - (d * d - d)]);
            }
        }
    }
}

/// A median blur leaves a uniform image as it is: where every pixel of `image` is `u`,
/// every output pixel is `u`.
pub proof fn law_median_uniform(image: Image, u: Pixel, d: int, x: int, y: int, px: Pixel)
    requires
        uniform(image, u),
        1 <= d <= image@.0@.0,
        0 <= x < image@.0@.0,
        0 <= y,
        y + d <= image@.0@.1,
        is_median_pixel(image, d, x, y, px),
    ensures
        px == u,
{
    lemma_uniform_state(image, u, d, y, (x + 1) as nat, 0);
    lemma_uniform_state(image, u, d, y, (x + 1) as nat, 1);
    lemma_uniform_state(image, u, d, y, (x + 1) as nat, 2);
    assert(px_at(image, x, y) == u);
    assert(set![channel(u, 0)].contains(px@.0));
    assert(set![channel(u, 1)].contains(px@.1));
    assert(set![channel(u, 2)].contains(px@.2));
    Pixel::lemma_view_eq(px, u);
}

/// Every value pushed stays in the set of the state that the pushes lead to.
proof fn lemma_push_seq_contains(t: TrackingState, s: Seq<u8>, k: int)
    requires
        0 <= k < s.len(),
    ensures
        ts_push_seq(t, s).1.contains(s[k]),
    decreases s.len(),
{
    if k < s.len() - 1 {
        lemma_push_seq_contains(t, s.drop_last(), k);
    }
}

/// The median blur at `(x, y)` looks at every row of its window: for each `k` below the
/// window side `d`, the set whose middle element gives channel `c` of the output pixel
/// at `(x, y)` holds channel `c` of the pixel of `image` at `(x, y + k)`.
pub proof fn law_median_reads_window_column(image: Image, d: int, x: int, y: int, k: int, c: int)
    requires
        0 <= x,
        0 <= k < d,
    ensures
        median_state(image, d, y, (x + 1) as nat, c).1.contains(channel(px_at(image, x, y + k), c)),
{
    let prev = ts_pop_n(median_state(image, d, y, x as nat, c), d as nat);
    let col = Seq::new(d as nat, |j: int| channel(px_at(image, x, y + j), c));
    assert(median_state(image, d, y, (x + 1) as nat, c) == ts_push_seq(prev, column_values(image, x, y, d, c)));
    assert(column_values(image, x, y, d, c) =~= col);
    lemma_push_seq_contains(prev, col, k);
}

} // verus!
