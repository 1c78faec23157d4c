use vstd::prelude::*;

use crate::component::kernel::{Kernel, within_margin};
use crate::component::primitive::{Margin, Point};
use crate::component::primitive::limits::lemma_dimension_max;
use crate::component::primitive::point::valid_coords;
use crate::error::IndexResult;
use crate::lens::Lens;
use crate::pixel::Pixel;

verus! {

/// The quadrant of a kuwahara window, around its centre, whose pixels are averaged.
#[derive(Debug, Clone, Copy, PartialEq, Eq, Structural)]
pub enum SelectedQuadrant {
    TopLeft,
    TopRight,
    BottomLeft,
    BottomRight,
}

/// A pixel with the quadrant selected for it.
#[derive(Debug, Clone, Copy)]
pub struct MeanCalculationInput {
    pub pixel: Pixel,
    pub selected_quadrant: SelectedQuadrant,
}

/// The top left corner of `quadrant` of the window of the given radius around `point`;
/// each quadrant is `radius + 1` points wide and high and holds `point`.
pub open spec fn quadrant_origin(quadrant: SelectedQuadrant, point: (int, int), radius: int) -> (int, int) {
    match quadrant {
        SelectedQuadrant::TopLeft => (point.0 - radius, point.1 - radius),
        SelectedQuadrant::TopRight => (point.0, point.1 - radius),
        SelectedQuadrant::BottomLeft => (point.0 - radius, point.1),
        SelectedQuadrant::BottomRight => (point.0, point.1),
    }
}

/// The pixel of cell `k` of the square of side `side` whose top left corner is `origin`,
/// the cells taken column by column.
pub open spec fn cell_pixel<S: Lens<Item = MeanCalculationInput>>(source: S, origin: (int, int), side: int, k: int) -> Pixel {
    source.spec_look(Point::with_coords(origin.0 + k / side, origin.1 + k % side)).pixel
}

/// The red, green and blue sums accumulated over the first `n` cells, `n >= 1`: the first
/// cell gives its own channels; each further cell adds its red to the red sum, its green
/// to the green sum, and sets the blue sum to the green sum so far plus its green.
pub open spec fn quadrant_sum<S: Lens<Item = MeanCalculationInput>>(source: S, origin: (int, int), side: int, n: nat) -> (int, int, int)
    decreases n,
{
    if n <= 1 {
        let p = cell_pixel(source, origin, side, 0);
        (p@.0 as int, p@.1 as int, p@.2 as int)
    } else {
        let acc = quadrant_sum(source, origin, side, (n - 1) as nat);
        let p = cell_pixel(source, origin, side, n - 1);
        (acc.0 + p@.0, acc.1 + p@.1, acc.1 + p@.1)
    }
}

/// What the mean calculation of the kuwahara filter gives at `point`: the sums over the
/// selected quadrant divided by its area, and the alpha of the pixel at `point`.
pub open spec fn kuwahara_mean<S: Lens<Item = MeanCalculationInput>>(source: S, point: Point, radius: int) -> (u8, u8, u8, u8) {
    let input = source.spec_look(point);
    let side = radius + 1;
    let area = side * side;
    let sum = quadrant_sum(source, quadrant_origin(input.selected_quadrant, point@, radius), side, area as nat);
    ((sum.0 / area) as u8, (sum.1 / area) as u8, (sum.2 / area) as u8, input.pixel@.3)
}

/// The second stage of the kuwahara filter: average the pixels of the quadrant selected
/// for each point.
#[derive(Debug, Clone, Copy)]
pub struct MeanCalculationKernel {
    radius: usize,
}

impl MeanCalculationKernel {
    #[verifier::type_invariant]
    spec fn inv(self) -> bool {
        self.radius <= 15
    }

    /// The radius of the window.
    pub closed spec fn spec_radius(self) -> int {
        self.radius as int
    }

    /// A kernel with the given window radius; the channel sums of a quadrant must fit in
    /// 16 bits, which holds up to a radius of 15.
    pub fn new(radius: usize) -> (r: MeanCalculationKernel)
        requires
            radius <= 15,
        ensures
            r.spec_radius() == radius,
    {
        MeanCalculationKernel { radius }
    }
}

/// Bounds of the sums of the first `n` cells.
proof fn lemma_quadrant_sum_bound<S: Lens<Item = MeanCalculationInput>>(source: S, origin: (int, int), side: int, n: nat)
    requires
        n >= 1,
    ensures
        0 <= quadrant_sum(source, origin, side, n).0 <= 255 * n,
        0 <= quadrant_sum(source, origin, side, n).1 <= 255 * n,
        0 <= quadrant_sum(source, origin, side, n).2 <= 255 * n,
    decreases n,
{
    if n > 1 {
        lemma_quadrant_sum_bound(source, origin, side, (n - 1) as nat);
    }
}

/// The channel sums of the square of side `side` at `origin`, divided by its area.
fn calculate_mean<S: Lens<Item = MeanCalculationInput>>(source: &S, origin: (usize, usize), side: usize) -> (r: (u16, u16, u16))
    requires
        1 <= side <= 16,
        origin.0 + side <= source.spec_size()@.0,
        origin.1 + side <= source.spec_size()@.1,
    ensures
        ({
            let sum = quadrant_sum(*source, (origin.0 as int, origin.1 as int), side as int, (side * side) as nat);
            r == ((sum.0 / (side * side)) as u16, (sum.1 / (side * side)) as u16, (sum.2 / (side * side)) as u16)
        }),
{
    let size = source.size();
    let _ = (size.width(), size.height());
    proof {
        lemma_dimension_max();
    }
    proof {
        assert(1 <= side * side <= 256) by (nonlinear_arith)
            requires 1 <= side <= 16;
    }
    let area = side * side;
    let ghost o = (origin.0 as int, origin.1 as int);
    let mut red: u16 = 0;
    let mut green: u16 = 0;
    let mut blue: u16 = 0;
    let mut k: usize = 0;
    while k < area
        invariant
            1 <= side <= 16,
            area == side * side,
            1 <= area <= 256,
            o == (origin.0 as int, origin.1 as int),
            size == source.spec_size(),
            origin.0 + side <= size@.0,
            origin.1 + side <= size@.1,
            size@.0 <= crate::component::primitive::DIMENSION_MAX,
            size@.1 <= crate::component::primitive::DIMENSION_MAX,
            k <= area,
            k >= 1 ==> (red as int, green as int, blue as int) == quadrant_sum(*source, o, side as int, k as nat),
        decreases area - k,
    {
        let x = k / side;
        let y = k % side;
        proof {
            assert(x < side) by (nonlinear_arith)
                requires x == k / side, k < side * side, side >= 1;
            assert(y < side) by (nonlinear_arith)
                requires y == k % side, side >= 1;
        }
        let point = Point::new(origin.0 + x, origin.1 + y).unwrap();
        proof {
            Point::lemma_with_coords(o.0 + x, o.1 + y);
            Point::lemma_view_eq(point, Point::with_coords(o.0 + (k as int) / (side as int), o.1 + (k as int) % (side as int)));
        }
        let px = source.look(point).unwrap().pixel;
        proof {
            if k >= 1 {
                lemma_quadrant_sum_bound(*source, o, side as int, k as nat);
            }
        }
        if k == 0 {
            red = px.r() as u16;
            green = px.g() as u16;
            blue = px.b() as u16;
        } else {
            let next_green = green + px.g() as u16;
            red = red + px.r() as u16;
            blue = next_green;
            green = next_green;
        }
        k = k + 1;
    }
    (red / (area as u16), green / (area as u16), blue / (area as u16))
}

impl<S: Lens<Item = MeanCalculationInput>> Kernel<S, Pixel> for MeanCalculationKernel {
    open spec fn spec_margin(&self) -> Margin {
        Margin::unified_spec(self.spec_radius())
    }

    open spec fn spec_evaluate(&self, source: S, point: Point) -> Pixel {
        Pixel::with_channels(kuwahara_mean(source, point, self.spec_radius()))
    }

    /// Points outside the source, where the kernel fails with `OutOfBounds`.
    open spec fn spec_admits(&self, source: S, point: Point) -> bool {
        !source.spec_size().spec_contains(point)
    }

    fn evaluate(&self, source: &S, point: Point) -> (r: IndexResult<Pixel>) {
        proof {
            use_type_invariant(self);
            lemma_dimension_max();
            Margin::lemma_unified_spec(self.radius as int);
            point.lemma_view_nonneg();
        }
        let radius = self.radius;
        let size = source.size();
        let _ = (size.width(), size.height());
        let (x, y) = (point.x(), point.y());
        let input = match source.look(point) {
            Ok(input) => input,
            Err(e) => return Err(e),
        };
        let origin = match input.selected_quadrant {
            SelectedQuadrant::TopLeft => (x - radius, y - radius),
            SelectedQuadrant::TopRight => (x, y - radius),
            SelectedQuadrant::BottomLeft => (x - radius, y),
            SelectedQuadrant::BottomRight => (x, y),
        };
        let side = radius + 1;
        let (red, green, blue) = calculate_mean(source, origin, side);
        proof {
            let sum = quadrant_sum(*source, (origin.0 as int, origin.1 as int), side as int, (side * side) as nat);
            assert(side * side >= 1) by (nonlinear_arith)
                requires side >= 1;
            lemma_quadrant_sum_bound(*source, (origin.0 as int, origin.1 as int), side as int, (side * side) as nat);
            assert(sum.0 / (side * side) <= 255) by (nonlinear_arith)
                requires 0 <= sum.0 <= 255 * (side * side), side * side >= 1;
            assert(sum.1 / (side * side) <= 255) by (nonlinear_arith)
                requires 0 <= sum.1 <= 255 * (side * side), side * side >= 1;
            assert(sum.2 / (side * side) <= 255) by (nonlinear_arith)
                requires 0 <= sum.2 <= 255 * (side * side), side * side >= 1;
        }
        let px = Pixel::new([red as u8, green as u8, blue as u8, input.pixel.a()]);
        proof {
            Pixel::lemma_with_channels(kuwahara_mean(*source, point, radius as int));
            Pixel::lemma_view_eq(px, Pixel::with_channels(kuwahara_mean(*source, point, radius as int)));
        }
        Ok(px)
    }

    fn margin(&self) -> (r: Margin) {
        proof {
            use_type_invariant(self);
            lemma_dimension_max();
            Margin::lemma_unified_spec(self.radius as int);
        }
        let margin = Margin::unified(self.radius).unwrap();
        proof {
            Margin::lemma_view_eq(margin, Margin::unified_spec(self.radius as int));
        }
        margin
    }
}

/// Sums over cells on which two sources agree are equal.
proof fn lemma_quadrant_sum_agree<S: Lens<Item = MeanCalculationInput>>(s1: S, s2: S, origin: (int, int), side: int, n: nat)
    requires
        forall|k: int| 0 <= k < n ==> #[trigger] cell_pixel(s1, origin, side, k) == cell_pixel(s2, origin, side, k),
        n >= 1,
    ensures
        quadrant_sum(s1, origin, side, n) == quadrant_sum(s2, origin, side, n),
    decreases n,
{
    assert(cell_pixel(s1, origin, side, 0) == cell_pixel(s2, origin, side, 0));
    if n > 1 {
        assert(cell_pixel(s1, origin, side, n - 1) == cell_pixel(s2, origin, side, n - 1));
        lemma_quadrant_sum_agree(s1, s2, origin, side, (n - 1) as nat);
    }
}

/// Whether `q` lies in `quadrant` of the window of the given radius around `point`:
/// left of and above it for `TopLeft`, right of and above for `TopRight`, left of and
/// below for `BottomLeft`, right of and below for `BottomRight`, each side included and
/// at most `radius` away.
pub open spec fn in_quadrant(quadrant: SelectedQuadrant, point: Point, radius: int, q: Point) -> bool {
    let (x, y) = (point@.0, point@.1);
    let left = x - radius <= q@.0 <= x;
    let right = x <= q@.0 <= x + radius;
    let above = y - radius <= q@.1 <= y;
    let below = y <= q@.1 <= y + radius;
    match quadrant {
        SelectedQuadrant::TopLeft => left && above,
        SelectedQuadrant::TopRight => right && above,
        SelectedQuadrant::BottomLeft => left && below,
        SelectedQuadrant::BottomRight => right && below,
    }
}

/// The mean calculation of the kuwahara filter reads only the quadrant selected at the
/// point: two sources that agree at `point` and on the pixels of that quadrant (for
/// `TopRight`, the points right of and above `point`) give the same mean there.
pub proof fn law_kuwahara_reads_selected_quadrant<S: Lens<Item = MeanCalculationInput>>(s1: S, s2: S, point: Point, radius: int)
    requires
        radius >= 0,
        valid_coords(point@.0 - radius, point@.1 - radius),
        valid_coords(point@.0 + radius, point@.1 + radius),
        s1.spec_look(point) == s2.spec_look(point),
        forall|q: Point| in_quadrant(s1.spec_look(point).selected_quadrant, point, radius, q) ==> #[trigger] s1.spec_look(q).pixel == s2.spec_look(q).pixel,
    ensures
        kuwahara_mean(s1, point, radius) == kuwahara_mean(s2, point, radius),
{
    let sel = s1.spec_look(point).selected_quadrant;
    let side = radius + 1;
    let area = side * side;
    let origin = quadrant_origin(sel, point@, radius);
    assert(area >= 1) by (nonlinear_arith)
        requires side >= 1, area == side * side;
    assert forall|k: int| 0 <= k < area implies #[trigger] cell_pixel(s1, origin, side, k) == cell_pixel(s2, origin, side, k) by {
        let a = k / side;
        let b = k % side;
        assert(0 <= a < side && 0 <= b < side) by (nonlinear_arith)
            requires 0 <= k < area, area == side * side, side >= 1, a == k / side, b == k % side;
        let q = Point::with_coords(origin.0 + a, origin.1 + b);
        Point::lemma_with_coords(origin.0 + a, origin.1 + b);
        assert(in_quadrant(sel, point, radius, q));
        assert(s1.spec_look(q).pixel == s2.spec_look(q).pixel);
    }
    lemma_quadrant_sum_agree(s1, s2, origin, side, area as nat);
}

} // verus!
