//! The field operations that the library needs of a scalar, and the words in
//! which contracts speak of them.

use vstd::prelude::*;

verus! {

/// A scalar that matrices and vectors hold.
///
/// The library asks nothing of an implementation but that its operations
/// return. In particular it does not take an operation for a function of its
/// operands: a floating-point product may differ from one call to the next in
/// the bits of a NaN. Contracts therefore say of a value that an operation
/// *can* return it, through the predicates of this module.
pub trait Scalar: Copy {
    /// The additive identity.
    fn zero() -> Self;

    /// The multiplicative identity.
    fn one() -> Self;

    /// Whether this value counts as zero.
    fn is_zero(&self) -> bool;

    /// The product of this value, as the left operand, and `rhs`.
    fn times(self, rhs: Self) -> Self;

    /// The quotient of this value, as the dividend, and `rhs`.
    fn over(self, rhs: Self) -> Self;
}

/// `z` is a value that `T::zero()` returns.
pub open spec fn is_zero_value<T: Scalar>(z: T) -> bool {
    call_ensures(T::zero, (), z)
}

/// `o` is a value that `T::one()` returns.
pub open spec fn is_one_value<T: Scalar>(o: T) -> bool {
    call_ensures(T::one, (), o)
}

/// `x.is_zero()` answers `verdict`.
pub open spec fn tests_zero<T: Scalar>(x: T, verdict: bool) -> bool {
    call_ensures(T::is_zero, (&x,), verdict)
}

/// `p` is a value that `a.times(b)` returns.
pub open spec fn is_product<T: Scalar>(a: T, b: T, p: T) -> bool {
    call_ensures(T::times, (a, b), p)
}

/// `q` is a value that `a.over(b)` returns.
pub open spec fn is_quotient<T: Scalar>(a: T, b: T, q: T) -> bool {
    call_ensures(T::over, (a, b), q)
}

/// Every entry of `s` is a value that `T::zero()` returns.
pub open spec fn all_zero_values<T: Scalar>(s: Seq<T>) -> bool {
    forall|i: int| 0 <= i < s.len() ==> is_zero_value(#[trigger] s[i])
}

/// Every entry of `s` tests as zero.
pub open spec fn all_test_zero<T: Scalar>(s: Seq<T>) -> bool {
    forall|i: int| 0 <= i < s.len() ==> tests_zero(#[trigger] s[i], true)
}

/// Some entry of `s` tests as other than zero.
pub open spec fn some_tests_nonzero<T: Scalar>(s: Seq<T>) -> bool {
    exists|i: int| 0 <= i < s.len() && tests_zero(#[trigger] s[i], false)
}

/// `p` is a value that multiplying the entries of `s` in index order,
/// starting from one, returns: `((1 * s[0]) * s[1]) * ...`.
pub open spec fn is_running_product<T: Scalar>(s: Seq<T>, p: T) -> bool
    decreases s.len(),
{
    if s.len() == 0 {
        is_one_value(p)
    } else {
        exists|q: T| is_running_product(s.drop_last(), q) && #[trigger] is_product(q, s.last(), p)
    }
}

/// Whether every entry of `s` tests as zero. Stops at the first that does
/// not.
pub fn is_all_zero<T: Scalar>(s: &[T]) -> (verdict: bool)
    ensures
        verdict ==> all_test_zero(s@),
        !verdict ==> some_tests_nonzero(s@),
{
    let n = s.len();
    let mut i: usize = 0;
    while i < n
        invariant
            n == s@.len(),
            i <= n,
            forall|k: int| 0 <= k < i ==> tests_zero(#[trigger] s@[k], true),
        decreases n - i,
    {
        if !s[i].is_zero() {
            return false;
        }
        i += 1;
    }
    true
}

/// Multiplies the entries of `s` in index order, starting from one.
pub fn running_product<T: Scalar>(s: &[T]) -> (p: T)
    ensures
        is_running_product(s@, p),
{
    let n = s.len();
    let mut p = T::one();
    let mut i: usize = 0;
    while i < n
        invariant
            n == s@.len(),
            i <= n,
            is_running_product(s@.take(i as int), p),
        decreases n - i,
    {
        let ghost before = p;
        p = p.times(s[i]);
        i += 1;
        proof {
            let next = s@.take(i as int);
            assert(next.drop_last() =~= s@.take(i - 1));
            assert(is_product(before, next.last(), p));
        }
    }
    assert(s@.take(n as int) =~= s@);
    p
}

} // verus!
