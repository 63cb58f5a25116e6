//! The buffers that a kernel call fills, and what a finished call leaves in
//! them.

use vstd::prelude::*;
use crate::kernel::{JOB_SKIP, JOB_VECTORS, call_is_legal, is_job, minimal_work, wants_vectors};
use crate::matrix::{Matrix, filled};
use crate::scalar::{Scalar, all_zero_values};

verus! {

/// The eigenvector output of one side, left or right.
#[derive(Clone, Debug)]
pub enum SideOutput<T> {
    /// No eigenvectors were asked for. The kernel still wants a buffer to
    /// point at, so this holds a single element that is never read.
    Skipped(Vec<T>),
    /// Eigenvectors were asked for: a square matrix whose column `i` belongs
    /// to eigenvalue `i`.
    Requested(Matrix<T>),
}

impl<T> SideOutput<T> {
    /// Whether eigenvectors were asked for on this side.
    pub open spec fn spec_is_requested(&self) -> bool {
        self is Requested
    }

    /// The storage that the kernel is handed for this side.
    pub open spec fn storage(&self) -> Seq<T> {
        match self {
            SideOutput::Skipped(placeholder) => placeholder@,
            SideOutput::Requested(vectors) => vectors@,
        }
    }

    /// The job flag that tells the kernel what to do with this side.
    pub open spec fn spec_job(&self) -> u8 {
        if self.spec_is_requested() {
            JOB_VECTORS
        } else {
            JOB_SKIP
        }
    }

    /// The stride between columns that the kernel is told for this side: `n`
    /// for a full matrix, `1` for the placeholder.
    pub open spec fn spec_leading_dimension(&self, n: int) -> int {
        if self.spec_is_requested() {
            n
        } else {
            1
        }
    }

    /// The eigenvector matrix of this side, if one was asked for.
    pub open spec fn spec_into_matrix(self) -> Option<Matrix<T>> {
        match self {
            SideOutput::Skipped(_) => None,
            SideOutput::Requested(vectors) => Some(vectors),
        }
    }

    /// The output is shaped for a matrix of order `n`: one placeholder
    /// element, or an `n x n` matrix.
    pub open spec fn wf(&self, n: nat) -> bool {
        match self {
            SideOutput::Skipped(placeholder) => placeholder@.len() == 1,
            SideOutput::Requested(vectors) => {
                &&& vectors.wf()
                &&& vectors.spec_nrows() == n
                &&& vectors.spec_ncols() == n
            },
        }
    }

    /// A well-formed output holds `n * n` entries where eigenvectors were
    /// asked for, and one where not.
    pub proof fn lemma_storage_len(&self, n: nat)
        requires
            self.wf(n),
        ensures
            self.storage().len() == (if self.spec_is_requested() { n * n } else { 1 }),
    {
        match self {
            SideOutput::Skipped(_) => {},
            SideOutput::Requested(vectors) => {
                vectors.lemma_len();
            },
        }
    }

    /// Whether eigenvectors were asked for on this side.
    #[verifier::when_used_as_spec(spec_is_requested)]
    pub fn is_requested(&self) -> (b: bool)
        ensures
            b == self.spec_is_requested(),
    {
        match self {
            SideOutput::Skipped(_) => false,
            SideOutput::Requested(_) => true,
        }
    }

    /// The job flag that tells the kernel what to do with this side.
    #[verifier::when_used_as_spec(spec_job)]
    pub fn job(&self) -> (job: u8)
        ensures
            job == self.spec_job(),
            is_job(job),
            wants_vectors(job) == self.spec_is_requested(),
    {
        match self {
            SideOutput::Skipped(_) => JOB_SKIP,
            SideOutput::Requested(_) => JOB_VECTORS,
        }
    }

    /// The stride between columns that the kernel is told for this side.
    pub fn leading_dimension(&self, n: i32) -> (ld: i32)
        ensures
            ld == self.spec_leading_dimension(n as int),
    {
        match self {
            SideOutput::Skipped(_) => 1,
            SideOutput::Requested(_) => n,
        }
    }

    /// The storage as the kernel takes it. Writing through the slice changes
    /// neither the variant nor the shape.
    pub fn as_mut_slice(&mut self) -> (s: &mut [T])
        ensures
            s@ == old(self).storage(),
            final(self).storage() == final(s)@,
            final(self).spec_is_requested() == old(self).spec_is_requested(),
            forall|n: nat|
                old(self).wf(n) && final(s)@.len() == s@.len() ==> #[trigger] final(self).wf(n),
    {
        match self {
            SideOutput::Skipped(placeholder) => placeholder.as_mut_slice(),
            SideOutput::Requested(vectors) => vectors.as_mut_slice(),
        }
    }

    /// Gives up the placeholder and keeps the eigenvectors, if there are any.
    pub fn into_matrix(self) -> (vectors: Option<Matrix<T>>)
        ensures
            vectors == self.spec_into_matrix(),
    {
        match self {
            SideOutput::Skipped(_) => None,
            SideOutput::Requested(vectors) => Some(vectors),
        }
    }
}

impl<T: Scalar> SideOutput<T> {
    /// A zeroed output for a matrix of order `n`: an `n x n` matrix where
    /// eigenvectors are wanted, the one-element placeholder where not.
    pub fn prepare(want: bool, n: usize) -> (side: Self)
        requires
            n * n <= usize::MAX,
        ensures
            side.wf(n as nat),
            side.spec_is_requested() == want,
            all_zero_values(side.storage()),
    {
        if want {
            SideOutput::Requested(Matrix::zeros(n, n))
        } else {
            SideOutput::Skipped(filled(T::zero(), 1))
        }
    }
}

/// Whichever sides are asked for, the call that computes on a matrix of
/// order `n >= 1` is one that the kernel accepts: the matrix with `n * n`
/// entries at leading dimension `n`, `n` real and `n` imaginary parts, each
/// side's job flag, storage and leading dimension, and a scratch buffer of
/// `lwork` elements, where `lwork` is at least the minimum for these job
/// flags.
pub proof fn lemma_run_is_legal<T>(left: SideOutput<T>, right: SideOutput<T>, n: nat, lwork: nat)
    requires
        left.wf(n),
        right.wf(n),
        1 <= n,
        lwork >= minimal_work(left.spec_job(), right.spec_job(), n as int),
    ensures
        call_is_legal(
            left.spec_job(),
            right.spec_job(),
            n as int,
            n * n,
            n as int,
            n,
            n,
            left.storage().len(),
            left.spec_leading_dimension(n as int),
            right.storage().len(),
            right.spec_leading_dimension(n as int),
            lwork,
            lwork as int,
        ),
{
    left.lemma_storage_len(n);
    right.lemma_storage_len(n);
}

} // verus!
