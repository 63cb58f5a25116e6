//! The eigendecomposition of a real square matrix.

use vstd::prelude::*;
use num_complex::Complex;
use crate::complex::{pair_up, pairs_of};
use crate::kernel::{EigenScalar, JOB_SKIP, JOB_VECTORS};
use crate::matrix::{Matrix, filled};
use crate::output::{SideOutput, lemma_run_is_legal};
use crate::scalar::{Scalar, all_test_zero, all_zero_values, is_all_zero, is_running_product, running_product, some_tests_nonzero};
use crate::workspace::workspace_size;

verus! {

/// What the kernel left behind after one run on a matrix of order `n`.
#[derive(Clone, Debug)]
pub struct KernelOutput<T> {
    /// The status of the run: `0` for success, negative where an argument
    /// was illegal, positive where the iteration failed to converge.
    pub info: i32,
    /// The real parts of the eigenvalues.
    pub real_parts: Vec<T>,
    /// The imaginary parts of the eigenvalues, index by index.
    pub imaginary_parts: Vec<T>,
    /// The left eigenvectors.
    pub left: SideOutput<T>,
    /// The right eigenvectors.
    pub right: SideOutput<T>,
}

/// Eigendecomposition of a real square matrix with real eigenvalues.
#[derive(Clone, Debug)]
pub struct Eigen<T> {
    /// The eigenvalues of the decomposed matrix.
    pub eigenvalues: Vec<T>,
    /// The (right) eigenvectors of the decomposed matrix.
    pub eigenvectors: Option<Matrix<T>>,
    /// The left eigenvectors of the decomposed matrix.
    pub left_eigenvectors: Option<Matrix<T>>,
}

impl<T> Eigen<T> {
    /// The order of the decomposed matrix.
    pub open spec fn order(&self) -> nat {
        self.eigenvalues@.len()
    }

    /// Each eigenvector matrix that is present is square, of the order of
    /// the decomposed matrix.
    pub open spec fn wf(&self) -> bool {
        &&& self.eigenvectors matches Some(v) ==> {
            &&& v.wf()
            &&& v.spec_nrows() == self.order()
            &&& v.spec_ncols() == self.order()
        }
        &&& self.left_eigenvectors matches Some(v) ==> {
            &&& v.wf()
            &&& v.spec_nrows() == self.order()
            &&& v.spec_ncols() == self.order()
        }
    }
}

impl<T: Scalar> KernelOutput<T> {
    /// The order of the matrix that the kernel ran on.
    pub open spec fn order(&self) -> nat {
        self.real_parts@.len()
    }

    /// The buffers have the shapes that a run on a matrix of this order
    /// leaves.
    pub open spec fn wf(&self) -> bool {
        &&& self.imaginary_parts@.len() == self.order()
        &&& self.left.wf(self.order())
        &&& self.right.wf(self.order())
    }

    /// The decomposition that this output holds: the real parts as
    /// eigenvalues, with the eigenvectors of each side that was asked for.
    pub open spec fn packaged(self) -> Eigen<T> {
        Eigen {
            eigenvalues: self.real_parts,
            eigenvectors: self.right.spec_into_matrix(),
            left_eigenvectors: self.left.spec_into_matrix(),
        }
    }

    /// Whether the run succeeded and every eigenvalue is real: the status is
    /// zero and every imaginary part tests as zero.
    pub fn has_real_eigenvalues(&self) -> (verdict: bool)
        ensures
            verdict ==> self.info == 0 && all_test_zero(self.imaginary_parts@),
            !verdict ==> self.info != 0 || some_tests_nonzero(self.imaginary_parts@),
    {
        self.info == 0 && is_all_zero(self.imaginary_parts.as_slice())
    }

    /// Packages the output as a decomposition: [`Self::packaged`] where the
    /// run succeeded and every eigenvalue is real, nothing otherwise.
    pub fn into_eigen(self) -> (res: Option<Eigen<T>>)
        ensures
            res is Some ==> self.info == 0 && all_test_zero(self.imaginary_parts@),
            res is None ==> self.info != 0 || some_tests_nonzero(self.imaginary_parts@),
            res matches Some(e) ==> e == self.packaged(),
            self.wf() ==> (res matches Some(e) ==> e.wf() && e.order() == self.order()),
    {
        if self.has_real_eigenvalues() {
            Some(
                Eigen {
                    eigenvalues: self.real_parts,
                    eigenvectors: self.right.into_matrix(),
                    left_eigenvectors: self.left.into_matrix(),
                },
            )
        } else {
            None
        }
    }

    /// The eigenvalues as complex numbers, in the order in which the kernel
    /// left them: present exactly when the run succeeded, whether or not
    /// they are real.
    pub fn into_complex_eigenvalues(self) -> (res: Option<Vec<Complex<T>>>)
        requires
            self.imaginary_parts@.len() == self.real_parts@.len(),
        ensures
            res.is_some() == (self.info == 0),
            res matches Some(values) ==> pairs_of(
                values@,
                self.real_parts@,
                self.imaginary_parts@,
            ),
    {
        if self.info == 0 {
            Some(pair_up(self.real_parts.as_slice(), self.imaginary_parts.as_slice()))
        } else {
            None
        }
    }
}

impl<T: EigenScalar> KernelOutput<T> {
    /// Runs the kernel on the square matrix `m`, which is consumed: the
    /// kernel uses its storage as working memory.
    ///
    /// First the workspace is sized by a probe with the job flags and the
    /// order of the real call; then the kernel is called once with a scratch
    /// buffer of exactly that length, with `m` at leading dimension `n`, and
    /// with an `n x n` buffer at leading dimension `n` for each side that is
    /// wanted and a placeholder at leading dimension `1` for each that is
    /// not.
    ///
    /// Returns `None` for a matrix of order zero, whose leading dimension the
    /// kernel would refuse, and where the probe fails or reports a length
    /// that the kernel would refuse; the kernel is then not called, or not
    /// again. Otherwise returns what the kernel left, whatever its status:
    /// since every argument is legal, it is zero or positive.
    pub fn run(mut m: Matrix<T>, want_left: bool, want_right: bool) -> (out: Option<Self>)
        requires
            m.wf(),
            m.spec_is_square(),
            m.spec_nrows() <= i32::MAX,
        ensures
            m.spec_nrows() == 0 ==> out is None,
            out matches Some(o) ==> {
                &&& o.wf()
                &&& o.order() == m.spec_nrows()
                &&& o.left.spec_is_requested() == want_left
                &&& o.right.spec_is_requested() == want_right
                &&& o.info >= 0
            },
            // For an order of at least one, one workspace query was made, on
            // the matrix as it came in and on zeroed eigenvalue buffers.
            m.spec_nrows() >= 1 ==> (exists|
                probed: &mut Matrix<T>,
                pwr: &mut Vec<T>,
                pwi: &mut Vec<T>,
                jobvl: u8,
                jobvr: u8,
                len: Option<usize>,
            |
                {
                    &&& jobvl == (if want_left { JOB_VECTORS } else { JOB_SKIP })
                    &&& jobvr == (if want_right { JOB_VECTORS } else { JOB_SKIP })
                    &&& *probed == m
                    &&& pwr@.len() == m.spec_nrows() && all_zero_values(pwr@)
                    &&& pwi@.len() == m.spec_nrows() && all_zero_values(pwi@)
                    &&& #[trigger] call_ensures(
                        workspace_size::<T>,
                        (jobvl, jobvr, probed, pwr, pwi),
                        len,
                    )
                    &&& match len {
                        // Without a length there is no output.
                        None => out is None,
                        // With one, the kernel was called once: with the same
                        // job flags and order, the three buffers as the
                        // query left them, the order as the leading
                        // dimension of the matrix, zeroed storage for each
                        // side at that side's leading dimension, and a
                        // zeroed scratch buffer of exactly that length. The
                        // output is what the call left.
                        Some(lwork) => exists|
                            a: &mut [T],
                            wr: &mut [T],
                            wi: &mut [T],
                            vl: &mut [T],
                            vr: &mut [T],
                            work: &mut [T],
                            info: &mut i32,
                            n: i32,
                            ldvl: i32,
                            ldvr: i32,
                        |
                            {
                                &&& n == m.spec_nrows()
                                &&& ldvl == (if want_left { n } else { 1i32 })
                                &&& ldvr == (if want_right { n } else { 1i32 })
                                &&& a@ == final(probed)@
                                &&& wr@ == final(pwr)@
                                &&& wi@ == final(pwi)@
                                &&& vl@.len() == (if want_left { m@.len() } else { 1 })
                                &&& vr@.len() == (if want_right { m@.len() } else { 1 })
                                &&& work@.len() == lwork
                                &&& all_zero_values(vl@)
                                &&& all_zero_values(vr@)
                                &&& all_zero_values(work@)
                                &&& #[trigger] call_ensures(
                                    T::xgeev,
                                    (
                                        jobvl,
                                        jobvr,
                                        n,
                                        a,
                                        n,
                                        wr,
                                        wi,
                                        vl,
                                        ldvl,
                                        vr,
                                        ldvr,
                                        work,
                                        lwork as i32,
                                        info,
                                    ),
                                    (),
                                )
                                &&& out matches Some(o) && {
                                    &&& o.info == *final(info)
                                    &&& o.real_parts@ == final(wr)@
                                    &&& o.imaginary_parts@ == final(wi)@
                                    &&& o.left.storage() == final(vl)@
                                    &&& o.right.storage() == final(vr)@
                                }
                            },
                    }
                }),
    {
        let n = m.nrows();
        if n == 0 {
            return None;
        }
        proof {
            m.lemma_len();
        }
        let mut left = SideOutput::prepare(want_left, n);
        let mut right = SideOutput::prepare(want_right, n);
        let jobvl = left.job();
        let jobvr = right.job();
        let mut wr = filled(T::zero(), n);
        let mut wi = filled(T::zero(), n);

        let lwork = match workspace_size::<T>(jobvl, jobvr, &mut m, &mut wr, &mut wi) {
            Some(len) => len,
            None => {
                return None;
            },
        };
        let mut work = filled(T::zero(), lwork);

        let order = n as i32;
        let ldvl = left.leading_dimension(order);
        let ldvr = right.leading_dimension(order);
        let mut info: i32 = 0;
        proof {
            m.lemma_len();
            lemma_run_is_legal(left, right, n as nat, lwork as nat);
            left.lemma_storage_len(n as nat);
            right.lemma_storage_len(n as nat);
        }
        T::xgeev(
            jobvl,
            jobvr,
            order,
            m.as_mut_slice(),
            order,
            wr.as_mut_slice(),
            wi.as_mut_slice(),
            left.as_mut_slice(),
            ldvl,
            right.as_mut_slice(),
            ldvr,
            work.as_mut_slice(),
            lwork as i32,
            &mut info,
        );
        Some(KernelOutput { info, real_parts: wr, imaginary_parts: wi, left, right })
    }
}

impl<T: Scalar> Eigen<T> {
    /// The determinant of the decomposed matrix: the product of its
    /// eigenvalues, taken in index order and starting from one.
    #[must_use]
    pub fn determinant(&self) -> (det: T)
        ensures
            is_running_product(self.eigenvalues@, det),
    {
        running_product(self.eigenvalues.as_slice())
    }
}

/// `res` is what [`KernelOutput::into_eigen`] makes of a run of the kernel on
/// `m` with these sides wanted, and nothing where the run yields no output.
pub open spec fn is_decomposition_of<T: EigenScalar>(
    m: Matrix<T>,
    want_left: bool,
    want_right: bool,
    res: Option<Eigen<T>>,
) -> bool {
    exists|out: Option<KernelOutput<T>>|
        #[trigger] call_ensures(KernelOutput::<T>::run, (m, want_left, want_right), out) && match out {
            Some(o) => call_ensures(KernelOutput::<T>::into_eigen, (o,), res),
            None => res is None,
        }
}

/// `res` is what [`KernelOutput::into_complex_eigenvalues`] makes of a run of
/// the kernel on `m` with no eigenvectors wanted, and nothing where the run
/// yields no output.
pub open spec fn are_complex_eigenvalues_of<T: EigenScalar>(
    m: Matrix<T>,
    res: Option<Vec<Complex<T>>>,
) -> bool {
    exists|out: Option<KernelOutput<T>>|
        #[trigger] call_ensures(KernelOutput::<T>::run, (m, false, false), out) && match out {
            Some(o) => call_ensures(KernelOutput::<T>::into_complex_eigenvalues, (o,), res),
            None => res is None,
        }
}

impl<T: EigenScalar> Eigen<T> {
    /// Computes the eigenvalues of the square matrix `m` and, for each side
    /// that is asked for, its eigenvectors.
    ///
    /// Yields no result for a matrix of order zero, where the kernel reports
    /// a nonzero status, at the probe or at the computation, and where some
    /// eigenvalue has a nonzero imaginary part.
    pub fn new(m: Matrix<T>, left_eigenvectors: bool, eigenvectors: bool) -> (res: Option<Self>)
        requires
            m.wf(),
            m.spec_is_square(),
            m.spec_nrows() <= i32::MAX,
        ensures
            is_decomposition_of(m, left_eigenvectors, eigenvectors, res),
            m.spec_nrows() == 0 ==> res is None,
            res matches Some(e) ==> {
                &&& e.wf()
                &&& e.order() == m.spec_nrows()
                &&& e.left_eigenvectors.is_some() == left_eigenvectors
                &&& e.eigenvectors.is_some() == eigenvectors
            },
    {
        match KernelOutput::run(m, left_eigenvectors, eigenvectors) {
            Some(output) => output.into_eigen(),
            None => None,
        }
    }

    /// The complex eigenvalues of the square matrix `m`, in the order in
    /// which the kernel leaves them. No eigenvectors are computed.
    ///
    /// Yields no result for a matrix of order zero, and where the kernel
    /// reports a nonzero status.
    pub fn complex_eigenvalues(m: Matrix<T>) -> (res: Option<Vec<Complex<T>>>)
        requires
            m.wf(),
            m.spec_is_square(),
            m.spec_nrows() <= i32::MAX,
        ensures
            are_complex_eigenvalues_of(m, res),
            m.spec_nrows() == 0 ==> res is None,
            res matches Some(values) ==> values@.len() == m.spec_nrows(),
    {
        match KernelOutput::run(m, false, false) {
            Some(output) => output.into_complex_eigenvalues(),
            None => None,
        }
    }
}

} // verus!
