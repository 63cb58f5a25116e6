//! A dense matrix in column-major storage.

use vstd::prelude::*;
use crate::scalar::{Scalar, all_zero_values};

verus! {

/// A dense `nrows x ncols` matrix whose entries lie column after column in
/// one vector.
#[derive(Clone, Debug)]
pub struct Matrix<T> {
    nrows: usize,
    ncols: usize,
    data: Vec<T>,
}

impl<T> Matrix<T> {
    /// The number of rows.
    pub closed spec fn spec_nrows(&self) -> nat {
        self.nrows as nat
    }

    /// The number of columns.
    pub closed spec fn spec_ncols(&self) -> nat {
        self.ncols as nat
    }

    /// The entries, column after column.
    pub closed spec fn view(&self) -> Seq<T> {
        self.data@
    }

    /// The storage holds exactly one entry for each position.
    pub closed spec fn wf(&self) -> bool {
        self.data@.len() == self.nrows * self.ncols
    }

    /// The entry in row `i` of column `j`.
    pub open spec fn at(&self, i: int, j: int) -> T {
        self@[j * self.spec_nrows() + i]
    }

    /// Whether there are as many rows as columns.
    pub open spec fn spec_is_square(&self) -> bool {
        self.spec_nrows() == self.spec_ncols()
    }

    /// A well-formed matrix holds `nrows * ncols` entries, and that many fit
    /// in memory.
    pub proof fn lemma_len(&self)
        requires
            self.wf(),
        ensures
            self@.len() == self.spec_nrows() * self.spec_ncols(),
            self.spec_nrows() * self.spec_ncols() <= usize::MAX,
    {
        vstd::std_specs::vec::axiom_spec_len(&self.data);
    }

    /// Builds a matrix from its entries in column-major order.
    pub fn from_vec(nrows: usize, ncols: usize, data: Vec<T>) -> (m: Self)
        requires
            data@.len() == nrows * ncols,
        ensures
            m.wf(),
            m.spec_nrows() == nrows,
            m.spec_ncols() == ncols,
            m@ == data@,
    {
        Matrix { nrows, ncols, data }
    }

    /// Gives the entries back, in column-major order.
    pub fn into_vec(self) -> (data: Vec<T>)
        ensures
            data@ == self@,
    {
        self.data
    }

    /// The number of rows.
    pub fn nrows(&self) -> (n: usize)
        ensures
            n == self.spec_nrows(),
    {
        self.nrows
    }

    /// The number of columns.
    pub fn ncols(&self) -> (n: usize)
        ensures
            n == self.spec_ncols(),
    {
        self.ncols
    }

    /// The pair of the number of rows and the number of columns.
    pub fn shape(&self) -> (s: (usize, usize))
        ensures
            s.0 == self.spec_nrows(),
            s.1 == self.spec_ncols(),
    {
        (self.nrows, self.ncols)
    }

    /// Whether there are as many rows as columns.
    #[verifier::when_used_as_spec(spec_is_square)]
    pub fn is_square(&self) -> (b: bool)
        ensures
            b == self.spec_is_square(),
    {
        self.nrows == self.ncols
    }

    /// The number of entries.
    pub fn len(&self) -> (l: usize)
        ensures
            l == self@.len(),
    {
        self.data.len()
    }

    /// The entries as one slice, column after column.
    pub fn as_slice(&self) -> (s: &[T])
        ensures
            s@ == self@,
    {
        self.data.as_slice()
    }

    /// The entries as one mutable slice, column after column. The shape
    /// stays as it is whatever is written through the slice.
    pub fn as_mut_slice(&mut self) -> (s: &mut [T])
        ensures
            s@ == old(self)@,
            final(self)@ == final(s)@,
            final(self).spec_nrows() == old(self).spec_nrows(),
            final(self).spec_ncols() == old(self).spec_ncols(),
            old(self).wf() && final(s)@.len() == s@.len() ==> final(self).wf(),
    {
        self.data.as_mut_slice()
    }
}

impl<T: Copy> Matrix<T> {
    /// The entry in row `i` of column `j`.
    pub fn get(&self, i: usize, j: usize) -> (x: T)
        requires
            self.wf(),
            i < self.spec_nrows(),
            j < self.spec_ncols(),
        ensures
            x == self.at(i as int, j as int),
    {
        proof {
            self.lemma_len();
            lemma_entry_in_bounds(i as int, j as int, self.nrows as int, self.ncols as int);
        }
        self.data[j * self.nrows + i]
    }

    /// The `nrows x ncols` matrix whose entries all equal `value`.
    pub fn from_element(nrows: usize, ncols: usize, value: T) -> (m: Self)
        requires
            nrows * ncols <= usize::MAX,
        ensures
            m.wf(),
            m.spec_nrows() == nrows,
            m.spec_ncols() == ncols,
            m@ == Seq::new((nrows * ncols) as nat, |k: int| value),
    {
        let data = filled(value, nrows * ncols);
        Matrix { nrows, ncols, data }
    }
}

impl<T: Scalar> Matrix<T> {
    /// The `nrows x ncols` matrix whose entries are all zero.
    pub fn zeros(nrows: usize, ncols: usize) -> (m: Self)
        requires
            nrows * ncols <= usize::MAX,
        ensures
            m.wf(),
            m.spec_nrows() == nrows,
            m.spec_ncols() == ncols,
            m@.len() == nrows * ncols,
            all_zero_values(m@),
    {
        Matrix::from_element(nrows, ncols, T::zero())
    }
}

/// Row `i` of column `j` lies inside the column-major storage of an
/// `nrows x ncols` matrix.
pub proof fn lemma_entry_in_bounds(i: int, j: int, nrows: int, ncols: int)
    requires
        0 <= i < nrows,
        0 <= j < ncols,
    ensures
        0 <= j * nrows,
        0 <= j * nrows + i < nrows * ncols,
{
    assert(0 <= j * nrows && j * nrows + nrows <= nrows * ncols) by (nonlinear_arith)
        requires
            0 <= j < ncols,
            0 <= nrows,
    ;
}

/// A vector of `len` copies of `value`.
pub fn filled<T: Copy>(value: T, len: usize) -> (v: Vec<T>)
    ensures
        v@ == Seq::new(len as nat, |k: int| value),
{
    let mut v: Vec<T> = Vec::with_capacity(len);
    let mut i: usize = 0;
    while i < len
        invariant
            i <= len,
            v@ == Seq::new(i as nat, |k: int| value),
        decreases len - i,
    {
        v.push(value);
        i += 1;
        assert(v@ =~= Seq::new(i as nat, |k: int| value));
    }
    v
}

} // verus!
