use vstd::prelude::*;

use core::cmp::Ordering;

use super::point::Point;
use super::size::Size;

verus! {

/// Componentwise partial order on pairs: equal, both components `<=`, both `>=`, or
/// incomparable.
pub open spec fn componentwise_order(a: (int, int), b: (int, int)) -> Option<Ordering> {
    if a == b {
        Some(Ordering::Equal)
    } else if a.0 <= b.0 && a.1 <= b.1 {
        Some(Ordering::Less)
    } else if a.0 >= b.0 && a.1 >= b.1 {
        Some(Ordering::Greater)
    } else {
        None
    }
}

impl PartialOrd for Point {
    /// A point is less than or equal to another if both coordinates are; points where one
    /// coordinate is greater and the other smaller are incomparable.
    fn partial_cmp(&self, other: &Point) -> (r: Option<Ordering>) {
        let (x1, y1, x2, y2) = (self.x(), self.y(), other.x(), other.y());
        if x1 == x2 && y1 == y2 {
            return Some(Ordering::Equal);
        }
        if x1 <= x2 && y1 <= y2 {
            return Some(Ordering::Less);
        }
        if x1 >= x2 && y1 >= y2 {
            return Some(Ordering::Greater);
        }
        None
    }
}

impl vstd::std_specs::cmp::PartialOrdSpecImpl for Point {
    open spec fn obeys_partial_cmp_spec() -> bool {
        true
    }

    open spec fn partial_cmp_spec(&self, other: &Point) -> Option<Ordering> {
        componentwise_order(self@, other@)
    }
}

impl PartialOrd for Size {
    /// A size is less than or equal to another if both dimensions are; sizes where one
    /// dimension is greater and the other smaller are incomparable.
    fn partial_cmp(&self, other: &Size) -> (r: Option<Ordering>) {
        let (w1, h1, w2, h2) = (self.width(), self.height(), other.width(), other.height());
        if w1 == w2 && h1 == h2 {
            return Some(Ordering::Equal);
        }
        if w1 <= w2 && h1 <= h2 {
            return Some(Ordering::Less);
        }
        if w1 >= w2 && h1 >= h2 {
            return Some(Ordering::Greater);
        }
        None
    }
}

impl vstd::std_specs::cmp::PartialOrdSpecImpl for Size {
    open spec fn obeys_partial_cmp_spec() -> bool {
        true
    }

    open spec fn partial_cmp_spec(&self, other: &Size) -> Option<Ordering> {
        componentwise_order(self@, other@)
    }
}


/// Comparing in the other order gives the reversed ordering: `Less` and `Greater` swap,
/// `Equal` and incomparable stay.
pub proof fn law_order_reverse(a: (int, int), b: (int, int))
    ensures
        componentwise_order(b, a) == match componentwise_order(a, b) {
            Some(Ordering::Less) => Some(Ordering::Greater),
            Some(Ordering::Greater) => Some(Ordering::Less),
            other => other,
        },
{
}

/// Two values are ordered `Equal` exactly when they are equal.
pub proof fn law_order_equal(a: (int, int), b: (int, int))
    ensures
        componentwise_order(a, b) == Some(Ordering::Equal) <==> a == b,
{
}

} // verus!
