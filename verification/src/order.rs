//! The order of points and of sizes: by the first coordinate, then by the
//! second.

use std::cmp::Ordering;

use vstd::prelude::*;
use vstd::std_specs::cmp::{PartialOrdSpec, PartialOrdSpecImpl};

use crate::types::{Point, Size};

verus! {

/// How the pair `(a0, a1)` compares with the pair `(b0, b1)`: the first
/// components decide unless they are equal.
pub open spec fn lexicographic(a0: i32, a1: i32, b0: i32, b1: i32) -> Ordering {
    if a0 < b0 {
        Ordering::Less
    } else if a0 > b0 {
        Ordering::Greater
    } else if a1 < b1 {
        Ordering::Less
    } else if a1 > b1 {
        Ordering::Greater
    } else {
        Ordering::Equal
    }
}

/// Compares two pairs, the first components first.
fn compare_pairs(a0: i32, a1: i32, b0: i32, b1: i32) -> (o: Ordering)
    ensures
        o == lexicographic(a0, a1, b0, b1),
{
    if a0 < b0 {
        Ordering::Less
    } else if a0 > b0 {
        Ordering::Greater
    } else if a1 < b1 {
        Ordering::Less
    } else if a1 > b1 {
        Ordering::Greater
    } else {
        Ordering::Equal
    }
}

impl PartialOrd for Point {
    /// Points are ordered by `x`, then by `y`.
    fn partial_cmp(&self, other: &Point) -> (o: Option<Ordering>) {
        Some(compare_pairs(self.x, self.y, other.x, other.y))
    }
}

impl PartialOrdSpecImpl for Point {
    open spec fn obeys_partial_cmp_spec() -> bool {
        true
    }

    open spec fn partial_cmp_spec(&self, other: &Point) -> Option<Ordering> {
        Some(lexicographic(self.x, self.y, other.x, other.y))
    }
}

impl PartialOrd for Size {
    /// Sizes are ordered by width, then by height.
    fn partial_cmp(&self, other: &Size) -> (o: Option<Ordering>) {
        Some(compare_pairs(self.width, self.height, other.width, other.height))
    }
}

impl PartialOrdSpecImpl for Size {
    open spec fn obeys_partial_cmp_spec() -> bool {
        true
    }

    open spec fn partial_cmp_spec(&self, other: &Size) -> Option<Ordering> {
        Some(lexicographic(self.width, self.height, other.width, other.height))
    }
}

/// The order of points is that of their coordinate pairs: a point is below
/// another exactly if its `x` is smaller, or the `x` are equal and its `y`
/// is smaller.
pub proof fn lemma_point_order(a: Point, b: Point)
    ensures
        PartialOrdSpec::partial_cmp_spec(&a, &b) == Some(Ordering::Less) <==> (a.x < b.x || (a.x
            == b.x && a.y < b.y)),
        PartialOrdSpec::partial_cmp_spec(&a, &b) == Some(Ordering::Equal) <==> a == b,
        PartialOrdSpec::partial_cmp_spec(&a, &b) == Some(Ordering::Greater)
            <==> PartialOrdSpec::partial_cmp_spec(&b, &a) == Some(Ordering::Less),
{
}

} // verus!
