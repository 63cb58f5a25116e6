//! Complex numbers, as `num_complex` holds them.

use vstd::prelude::*;
use num_complex::Complex;

verus! {

/// `num_complex::Complex`: a pair of a real and an imaginary part, both
/// public fields.
#[verifier::external_type_specification]
#[verifier::reject_recursive_types(T)]
pub struct ExComplex<T>(Complex<T>);

/// `num_complex::Complex::new` stores its first argument as the real part and
/// its second as the imaginary part.
pub assume_specification<T>[ Complex::<T>::new ](re: T, im: T) -> (c: Complex<T>)
    ensures
        c.re == re,
        c.im == im,
;

/// Whether `pairs` holds, index by index, the real parts `re` joined with the
/// imaginary parts `im`.
pub open spec fn pairs_of<T>(pairs: Seq<Complex<T>>, re: Seq<T>, im: Seq<T>) -> bool {
    &&& pairs.len() == re.len()
    &&& pairs.len() == im.len()
    &&& forall|i: int|
        0 <= i < pairs.len() ==> (#[trigger] pairs[i]).re == re[i] && pairs[i].im == im[i]
}

/// Joins real and imaginary parts into complex numbers, in index order.
pub fn pair_up<T: Copy>(re: &[T], im: &[T]) -> (pairs: Vec<Complex<T>>)
    requires
        re@.len() == im@.len(),
    ensures
        pairs_of(pairs@, re@, im@),
{
    let n = re.len();
    let mut pairs: Vec<Complex<T>> = Vec::with_capacity(n);
    let mut i: usize = 0;
    while i < n
        invariant
            n == re@.len(),
            n == im@.len(),
            i <= n,
            pairs_of(pairs@, re@.take(i as int), im@.take(i as int)),
        decreases n - i,
    {
        pairs.push(Complex::new(re[i], im[i]));
        i += 1;
    }
    assert(re@.take(n as int) =~= re@);
    assert(im@.take(n as int) =~= im@);
    pairs
}

} // verus!
