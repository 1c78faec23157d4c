use vstd::prelude::*;

use crate::component::kernel::{Kernel, within_margin};
use crate::component::primitive::{Margin, Offset, Point};
use crate::component::primitive::limits::lemma_dimension_max;
use crate::component::primitive::point::shifted;
use crate::error::{IndexError, IndexResult};
use crate::lens::Lens;

verus! {

/// Horizontal and vertical intensity gradients at a point.
#[derive(Debug, Default, Clone, Copy, PartialEq, Eq, Structural)]
pub struct Gradient {
    x: i16,
    y: i16,
}

impl View for Gradient {
    /// `(x, y)`.
    type V = (int, int);

    closed spec fn view(&self) -> (int, int) {
        (self.x as int, self.y as int)
    }
}

impl Gradient {
    /// The gradient with the given horizontal and vertical components.
    pub fn new(x: i16, y: i16) -> (r: Gradient)
        ensures
            r@ == (x as int, y as int),
    {
        Gradient { x, y }
    }

    /// The horizontal gradient.
    pub fn x(&self) -> (r: i16)
        ensures
            r == self@.0,
    {
        self.x
    }

    /// The vertical gradient.
    pub fn y(&self) -> (r: i16)
        ensures
            r == self@.1,
    {
        self.y
    }

    /// The gradient with the given components; meaningful where they fit in `i16`.
    pub closed spec fn with_components(x: int, y: int) -> Gradient {
        Gradient { x: x as i16, y: y as i16 }
    }
}

/// The value of `source` at `point` moved by `(dx, dy)`.
pub open spec fn around<S: Lens<Item = u8>>(source: S, point: Point, dx: int, dy: int) -> int {
    source.spec_look(shifted(point, dx, dy)) as int
}

/// Horizontal Sobel response: weights `[-1, 0, 1]`, `[-2, 0, 2]`, `[-1, 0, 1]` by row.
pub open spec fn sobel_x<S: Lens<Item = u8>>(source: S, p: Point) -> int {
    -around(source, p, -1, -1) + around(source, p, 1, -1) - 2 * around(source, p, -1, 0)
        + 2 * around(source, p, 1, 0) - around(source, p, -1, 1) + around(source, p, 1, 1)
}

/// Vertical Sobel response: weights `[-1, -2, -1]`, `[0, 0, 0]`, `[1, 2, 1]` by row.
pub open spec fn sobel_y<S: Lens<Item = u8>>(source: S, p: Point) -> int {
    -around(source, p, -1, -1) - 2 * around(source, p, 0, -1) - around(source, p, 1, -1)
        + around(source, p, -1, 1) + 2 * around(source, p, 0, 1) + around(source, p, 1, 1)
}

/// A [`Kernel`] computing the Sobel gradients of a single-channel lens over a 3x3
/// neighbourhood.
#[derive(Debug, Default, Copy, Clone)]
pub struct SobelKernel;

impl SobelKernel {
    /// Create a [`SobelKernel`].
    pub fn new() -> (r: SobelKernel) {
        SobelKernel
    }
}

/// The value of `source` at `point` moved by `(dx, dy)`, which stays within `source`.
fn value_at<S: Lens<Item = u8>>(source: &S, point: Point, dx: isize, dy: isize) -> (r: i16)
    requires
        -1 <= dx <= 1,
        -1 <= dy <= 1,
        within_margin(source.spec_size(), Margin::unified_spec(1), point),
    ensures
        r == around(*source, point, dx as int, dy as int),
{
    proof {
        lemma_dimension_max();
        Margin::lemma_unified_spec(1);
    }
    let size = source.size();
    let _ = (size.width(), size.height(), point.x(), point.y());
    let offset = Offset::new(dx, dy).unwrap();
    let moved = point.translate(offset).unwrap();
    proof {
        Point::lemma_with_coords(point@.0 + dx, point@.1 + dy);
        Point::lemma_view_eq(moved, shifted(point, dx as int, dy as int));
    }
    let v = source.look(moved).unwrap();
    v as i16
}

impl<S: Lens<Item = u8>> Kernel<S, Gradient> for SobelKernel {
    open spec fn spec_margin(&self) -> Margin {
        Margin::unified_spec(1)
    }

    open spec fn spec_evaluate(&self, source: S, point: Point) -> Gradient {
        Gradient::with_components(sobel_x(source, point), sobel_y(source, point))
    }

    /// Points on the left or top border and points outside the source, where the kernel
    /// fails with `OutOfBounds`; only the right and bottom borders are left out.
    open spec fn spec_admits(&self, source: S, point: Point) -> bool {
        !(0 < point@.0 < source.spec_size()@.0 && 0 < point@.1 < source.spec_size()@.1)
    }

    fn evaluate(&self, source: &S, point: Point) -> (r: IndexResult<Gradient>) {
        let size = source.size();
        let (w, h, x, y) = (size.width(), size.height(), point.x(), point.y());
        proof {
            Margin::lemma_unified_spec(1);
        }
        if !(x < w && x > 0 && y < h && y > 0) {
            return Err(IndexError::OutOfBounds);
        }
        let top_left = value_at(source, point, -1, -1);
        let top = value_at(source, point, 0, -1);
        let top_right = value_at(source, point, 1, -1);
        let left = value_at(source, point, -1, 0);
        let right = value_at(source, point, 1, 0);
        let bottom_left = value_at(source, point, -1, 1);
        let bottom = value_at(source, point, 0, 1);
        let bottom_right = value_at(source, point, 1, 1);
        let g_x: i16 = -top_left + top_right - 2 * left + 2 * right - bottom_left + bottom_right;
        let g_y: i16 = -top_left - 2 * top - top_right + bottom_left + 2 * bottom + bottom_right;
        Ok(Gradient { x: g_x, y: g_y })
    }

    fn margin(&self) -> (r: Margin) {
        proof {
            lemma_dimension_max();
        }
        let r = Margin::unified(1).unwrap();
        proof {
            Margin::lemma_unified_spec(1);
            Margin::lemma_view_eq(r, Margin::unified_spec(1));
        }
        r
    }
}


/// The Sobel kernel finds no gradient where the neighbourhood of a point is flat.
pub proof fn law_sobel_flat<S: Lens<Item = u8>>(source: S, point: Point)
    requires
        forall|dx: int, dy: int| -1 <= dx <= 1 && -1 <= dy <= 1 ==> #[trigger] around(source, point, dx, dy) == around(source, point, 0, 0),
    ensures
        sobel_x(source, point) == 0,
        sobel_y(source, point) == 0,
{
    assert(around(source, point, -1, -1) == around(source, point, 0, 0));
    assert(around(source, point, 0, -1) == around(source, point, 0, 0));
    assert(around(source, point, 1, -1) == around(source, point, 0, 0));
    assert(around(source, point, -1, 0) == around(source, point, 0, 0));
    assert(around(source, point, 1, 0) == around(source, point, 0, 0));
    assert(around(source, point, -1, 1) == around(source, point, 0, 0));
    assert(around(source, point, 0, 1) == around(source, point, 0, 0));
    assert(around(source, point, 1, 1) == around(source, point, 0, 0));
}

/// The response of the Sobel kernel to a single bright neighbour: where every value of
/// the 3x3 neighbourhood of `point` is 0 but the one at `(dx, dy)`, the horizontal
/// gradient is that value weighted by row `dy + 1`, column `dx + 1` of
/// `[[-1, 0, 1], [-2, 0, 2], [-1, 0, 1]]`, and the vertical gradient is it weighted by
/// `[[-1, -2, -1], [0, 0, 0], [1, 2, 1]]`.
pub proof fn law_sobel_impulse<S: Lens<Item = u8>>(source: S, point: Point, dx: int, dy: int)
    requires
        -1 <= dx <= 1,
        -1 <= dy <= 1,
        forall|ex: int, ey: int| -1 <= ex <= 1 && -1 <= ey <= 1 && (ex != dx || ey != dy) ==> #[trigger] around(source, point, ex, ey) == 0,
    ensures
        sobel_x(source, point) == seq![seq![-1int, 0, 1], seq![-2int, 0, 2], seq![-1int, 0, 1]][dy + 1][dx + 1] * around(source, point, dx, dy),
        sobel_y(source, point) == seq![seq![-1int, -2, -1], seq![0int, 0, 0], seq![1int, 2, 1]][dy + 1][dx + 1] * around(source, point, dx, dy),
{
    let v = around(source, point, dx, dy);
    assert(around(source, point, -1, -1) == if dx == -1 && dy == -1 { v } else { 0 });
    assert(around(source, point, 0, -1) == if dx == 0 && dy == -1 { v } else { 0 });
    assert(around(source, point, 1, -1) == if dx == 1 && dy == -1 { v } else { 0 });
    assert(around(source, point, -1, 0) == if dx == -1 && dy == 0 { v } else { 0 });
    assert(around(source, point, 1, 0) == if dx == 1 && dy == 0 { v } else { 0 });
    assert(around(source, point, -1, 1) == if dx == -1 && dy == 1 { v } else { 0 });
    assert(around(source, point, 0, 1) == if dx == 0 && dy == 1 { v } else { 0 });
    assert(around(source, point, 1, 1) == if dx == 1 && dy == 1 { v } else { 0 });
    let wx = seq![seq![-1int, 0, 1], seq![-2int, 0, 2], seq![-1int, 0, 1]];
    let wy = seq![seq![-1int, -2, -1], seq![0int, 0, 0], seq![1int, 2, 1]];
    assert(wx[0] == seq![-1int, 0, 1] && wx[1] == seq![-2int, 0, 2] && wx[2] == seq![-1int, 0, 1]);
    assert(wy[0] == seq![-1int, -2, -1] && wy[1] == seq![0int, 0, 0] && wy[2] == seq![1int, 2, 1]);
    assert(seq![-1int, 0, 1][0] == -1 && seq![-1int, 0, 1][1] == 0 && seq![-1int, 0, 1][2] == 1);
    assert(seq![-2int, 0, 2][0] == -2 && seq![-2int, 0, 2][1] == 0 && seq![-2int, 0, 2][2] == 2);
    assert(seq![-1int, -2, -1][0] == -1 && seq![-1int, -2, -1][1] == -2 && seq![-1int, -2, -1][2] == -1);
    assert(seq![0int, 0, 0][0] == 0 && seq![0int, 0, 0][1] == 0 && seq![0int, 0, 0][2] == 0);
    assert(seq![1int, 2, 1][0] == 1 && seq![1int, 2, 1][1] == 2 && seq![1int, 2, 1][2] == 1);
    let (i, j) = (dy + 1, dx + 1);
    assert(i == 0 || i == 1 || i == 2);
    assert(j == 0 || j == 1 || j == 2);
    if i == 0 {
        assert(wx[i] == wx[0] && wy[i] == wy[0]);
    } else if i == 1 {
        assert(wx[i] == wx[1] && wy[i] == wy[1]);
    } else {
        assert(wx[i] == wx[2] && wy[i] == wy[2]);
    }
    if j == 0 {
        assert(wx[i][j] == wx[i][0] && wy[i][j] == wy[i][0]);
    } else if j == 1 {
        assert(wx[i][j] == wx[i][1] && wy[i][j] == wy[i][1]);
    } else {
        assert(wx[i][j] == wx[i][2] && wy[i][j] == wy[i][2]);
    }
}

} // verus!
