//! Non-uniform scaling of vectors and points, axis by axis.

use vstd::prelude::*;
use vstd::std_specs::convert::{FromSpecImpl, IntoSpecImpl};
use vstd::std_specs::ops::{DivSpecImpl, MulSpecImpl};
use crate::scalar::{Scalar, is_product, is_quotient};

verus! {

/// A scaling represents a non-uniform scale transformation: one factor for
/// each of the `D` axes.
#[derive(Clone, Copy, Debug)]
pub struct Scaling<T: Scalar, const D: usize>(pub [T; D]);

/// A point in `D` dimensions.
#[derive(Clone, Copy, Debug)]
pub struct Point<T: Scalar, const D: usize> {
    /// The coordinates, axis by axis.
    pub coords: [T; D],
}

/// `out` holds, entry by entry, a product of the entries of `a` and `b`.
pub open spec fn component_times<T: Scalar>(a: Seq<T>, b: Seq<T>, out: Seq<T>) -> bool {
    &&& out.len() == a.len()
    &&& forall|i: int| 0 <= i < a.len() ==> is_product(a[i], b[i], #[trigger] out[i])
}

/// `out` holds, entry by entry, a quotient of the entries of `a` and `b`.
pub open spec fn component_over<T: Scalar>(a: Seq<T>, b: Seq<T>, out: Seq<T>) -> bool {
    &&& out.len() == a.len()
    &&& forall|i: int| 0 <= i < a.len() ==> is_quotient(a[i], b[i], #[trigger] out[i])
}

/// Multiplies `a` by `b`, entry by entry, in place.
pub fn component_mul_assign<T: Scalar, const D: usize>(a: &mut [T; D], b: &[T; D])
    ensures
        component_times(old(a)@, b@, final(a)@),
{
    let mut i: usize = 0;
    while i < D
        invariant
            i <= D,
            forall|k: int| 0 <= k < i ==> is_product(old(a)@[k], b@[k], #[trigger] a@[k]),
            forall|k: int| i <= k < D ==> a@[k] == old(a)@[k],
        decreases D - i,
    {
        a[i] = a[i].times(b[i]);
        i += 1;
    }
}

/// Divides `a` by `b`, entry by entry, in place.
pub fn component_div_assign<T: Scalar, const D: usize>(a: &mut [T; D], b: &[T; D])
    ensures
        component_over(old(a)@, b@, final(a)@),
{
    let mut i: usize = 0;
    while i < D
        invariant
            i <= D,
            forall|k: int| 0 <= k < i ==> is_quotient(old(a)@[k], b@[k], #[trigger] a@[k]),
            forall|k: int| i <= k < D ==> a@[k] == old(a)@[k],
        decreases D - i,
    {
        a[i] = a[i].over(b[i]);
        i += 1;
    }
}

impl<T: Scalar, const D: usize> From<[T; D]> for Scaling<T, D> {
    fn from(other: [T; D]) -> (s: Self) {
        Scaling(other)
    }
}

impl<T: Scalar, const D: usize> FromSpecImpl<[T; D]> for Scaling<T, D> {
    open spec fn obeys_from_spec() -> bool {
        true
    }

    open spec fn from_spec(other: [T; D]) -> Self {
        Scaling(other)
    }
}

impl<T: Scalar, const D: usize> Into<[T; D]> for Scaling<T, D> {
    fn into(self) -> (factors: [T; D]) {
        self.0
    }
}

impl<T: Scalar, const D: usize> IntoSpecImpl<[T; D]> for Scaling<T, D> {
    open spec fn obeys_into_spec() -> bool {
        true
    }

    open spec fn into_spec(self) -> [T; D] {
        self.0
    }
}

/// Scales each factor by the matching entry of a vector.
impl<T: Scalar, const D: usize> core::ops::Mul<[T; D]> for Scaling<T, D> {
    type Output = Scaling<T, D>;

    fn mul(self, rhs: [T; D]) -> (out: Scaling<T, D>)
        ensures
            component_times(self.0@, rhs@, out.0@),
    {
        let mut entries = self.0;
        component_mul_assign(&mut entries, &rhs);
        Scaling(entries)
    }
}

/// No function models this operator, since a scalar's own product or
/// quotient need not be one: what it returns is stated on `mul` itself.
impl<T: Scalar, const D: usize> MulSpecImpl<[T; D]> for Scaling<T, D> {
    open spec fn obeys_mul_spec() -> bool {
        false
    }

    open spec fn mul_req(self, rhs: [T; D]) -> bool {
        true
    }

    open spec fn mul_spec(self, rhs: [T; D]) -> Scaling<T, D> {
        arbitrary()
    }
}

/// Scales each factor by the matching entry of a vector, in place.
impl<T: Scalar, const D: usize> core::ops::MulAssign<[T; D]> for Scaling<T, D> {
    fn mul_assign(&mut self, rhs: [T; D])
        ensures
            component_times(old(self).0@, rhs@, final(self).0@),
    {
        component_mul_assign(&mut self.0, &rhs);
    }
}

/// Divides each factor by the matching entry of a vector.
impl<T: Scalar, const D: usize> core::ops::Div<[T; D]> for Scaling<T, D> {
    type Output = Scaling<T, D>;

    fn div(self, rhs: [T; D]) -> (out: Scaling<T, D>)
        ensures
            component_over(self.0@, rhs@, out.0@),
    {
        let mut entries = self.0;
        component_div_assign(&mut entries, &rhs);
        Scaling(entries)
    }
}

/// No function models this operator, since a scalar's own product or
/// quotient need not be one: what it returns is stated on `div` itself.
impl<T: Scalar, const D: usize> DivSpecImpl<[T; D]> for Scaling<T, D> {
    open spec fn obeys_div_spec() -> bool {
        false
    }

    open spec fn div_req(self, rhs: [T; D]) -> bool {
        true
    }

    open spec fn div_spec(self, rhs: [T; D]) -> Scaling<T, D> {
        arbitrary()
    }
}

/// Divides each factor by the matching entry of a vector, in place.
impl<T: Scalar, const D: usize> core::ops::DivAssign<[T; D]> for Scaling<T, D> {
    fn div_assign(&mut self, rhs: [T; D])
        ensures
            component_over(old(self).0@, rhs@, final(self).0@),
    {
        component_div_assign(&mut self.0, &rhs);
    }
}

/// Composes two scalings: the factors multiply axis by axis.
impl<T: Scalar, const D: usize> core::ops::Mul<Scaling<T, D>> for Scaling<T, D> {
    type Output = Scaling<T, D>;

    fn mul(self, rhs: Scaling<T, D>) -> (out: Scaling<T, D>)
        ensures
            component_times(self.0@, rhs.0@, out.0@),
    {
        let mut entries = self.0;
        component_mul_assign(&mut entries, &rhs.0);
        Scaling(entries)
    }
}

/// No function models this operator, since a scalar's own product or
/// quotient need not be one: what it returns is stated on `mul` itself.
impl<T: Scalar, const D: usize> MulSpecImpl<Scaling<T, D>> for Scaling<T, D> {
    open spec fn obeys_mul_spec() -> bool {
        false
    }

    open spec fn mul_req(self, rhs: Scaling<T, D>) -> bool {
        true
    }

    open spec fn mul_spec(self, rhs: Scaling<T, D>) -> Scaling<T, D> {
        arbitrary()
    }
}

/// Composes with another scaling, in place.
impl<T: Scalar, const D: usize> core::ops::MulAssign<Scaling<T, D>> for Scaling<T, D> {
    fn mul_assign(&mut self, rhs: Scaling<T, D>)
        ensures
            component_times(old(self).0@, rhs.0@, final(self).0@),
    {
        component_mul_assign(&mut self.0, &rhs.0);
    }
}

/// Divides the factors by those of another scaling, axis by axis.
impl<T: Scalar, const D: usize> core::ops::Div<Scaling<T, D>> for Scaling<T, D> {
    type Output = Scaling<T, D>;

    fn div(self, rhs: Scaling<T, D>) -> (out: Scaling<T, D>)
        ensures
            component_over(self.0@, rhs.0@, out.0@),
    {
        let mut entries = self.0;
        component_div_assign(&mut entries, &rhs.0);
        Scaling(entries)
    }
}

/// No function models this operator, since a scalar's own product or
/// quotient need not be one: what it returns is stated on `div` itself.
impl<T: Scalar, const D: usize> DivSpecImpl<Scaling<T, D>> for Scaling<T, D> {
    open spec fn obeys_div_spec() -> bool {
        false
    }

    open spec fn div_req(self, rhs: Scaling<T, D>) -> bool {
        true
    }

    open spec fn div_spec(self, rhs: Scaling<T, D>) -> Scaling<T, D> {
        arbitrary()
    }
}

/// Divides by another scaling, in place.
impl<T: Scalar, const D: usize> core::ops::DivAssign<Scaling<T, D>> for Scaling<T, D> {
    fn div_assign(&mut self, rhs: Scaling<T, D>)
        ensures
            component_over(old(self).0@, rhs.0@, final(self).0@),
    {
        component_div_assign(&mut self.0, &rhs.0);
    }
}

/// Scales a point: each coordinate is multiplied by the factor of its axis.
impl<T: Scalar, const D: usize> core::ops::Mul<Point<T, D>> for Scaling<T, D> {
    type Output = Point<T, D>;

    fn mul(self, rhs: Point<T, D>) -> (out: Point<T, D>)
        ensures
            component_times(self.0@, rhs.coords@, out.coords@),
    {
        let mut entries = self.0;
        component_mul_assign(&mut entries, &rhs.coords);
        Point { coords: entries }
    }
}

/// No function models this operator, since a scalar's own product or
/// quotient need not be one: what it returns is stated on `mul` itself.
impl<T: Scalar, const D: usize> MulSpecImpl<Point<T, D>> for Scaling<T, D> {
    open spec fn obeys_mul_spec() -> bool {
        false
    }

    open spec fn mul_req(self, rhs: Point<T, D>) -> bool {
        true
    }

    open spec fn mul_spec(self, rhs: Point<T, D>) -> Point<T, D> {
        arbitrary()
    }
}

/// Divides each factor by the coordinate of its axis, which gives a point.
impl<T: Scalar, const D: usize> core::ops::Div<Point<T, D>> for Scaling<T, D> {
    type Output = Point<T, D>;

    fn div(self, rhs: Point<T, D>) -> (out: Point<T, D>)
        ensures
            component_over(self.0@, rhs.coords@, out.coords@),
    {
        let mut entries = self.0;
        component_div_assign(&mut entries, &rhs.coords);
        Point { coords: entries }
    }
}

/// No function models this operator, since a scalar's own product or
/// quotient need not be one: what it returns is stated on `div` itself.
impl<T: Scalar, const D: usize> DivSpecImpl<Point<T, D>> for Scaling<T, D> {
    open spec fn obeys_div_spec() -> bool {
        false
    }

    open spec fn div_req(self, rhs: Point<T, D>) -> bool {
        true
    }

    open spec fn div_spec(self, rhs: Point<T, D>) -> Point<T, D> {
        arbitrary()
    }
}

} // verus!
