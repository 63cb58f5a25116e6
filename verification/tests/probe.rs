//! Probes that go wrong: the computation must then not be attempted. Each
//! kernel here panics if it is asked to compute.

use real_eigen::eigen::{Eigen, KernelOutput};
use real_eigen::kernel::{EigenScalar, JOB_SKIP, JOB_VECTORS};
use real_eigen::matrix::Matrix;
use real_eigen::scalar::Scalar;
use real_eigen::workspace::workspace_size;

/// A scalar whose probe reports the status `STATUS` and, as the length it
/// wants, `PER_ROW` elements for each row of the matrix.
#[derive(Clone, Copy, Debug, PartialEq)]
struct Probed<const STATUS: i32, const PER_ROW: i32>(f64);

impl<const STATUS: i32, const PER_ROW: i32> Scalar for Probed<STATUS, PER_ROW> {
    fn zero() -> Self {
        Probed(0.0)
    }

    fn one() -> Self {
        Probed(1.0)
    }

    fn is_zero(&self) -> bool {
        self.0 == 0.0
    }

    fn times(self, rhs: Self) -> Self {
        Probed(self.0 * rhs.0)
    }

    fn over(self, rhs: Self) -> Self {
        Probed(self.0 / rhs.0)
    }
}

impl<const STATUS: i32, const PER_ROW: i32> EigenScalar for Probed<STATUS, PER_ROW> {
    fn xgeev(
        _jobvl: u8,
        _jobvr: u8,
        _n: i32,
        _a: &mut [Self],
        _lda: i32,
        _wr: &mut [Self],
        _wi: &mut [Self],
        _vl: &mut [Self],
        _ldvl: i32,
        _vr: &mut [Self],
        _ldvr: i32,
        _work: &mut [Self],
        _lwork: i32,
        _info: &mut i32,
    ) {
        panic!("the kernel was asked to compute after a probe that went wrong");
    }

    fn xgeev_work_size(
        _jobvl: u8,
        _jobvr: u8,
        n: i32,
        _a: &mut [Self],
        _lda: i32,
        _wr: &mut [Self],
        _wi: &mut [Self],
        _vl: &mut [Self],
        _ldvl: i32,
        _vr: &mut [Self],
        _ldvr: i32,
        info: &mut i32,
    ) -> i32 {
        *info = STATUS;
        PER_ROW * n
    }
}

fn identity<T: Scalar>(n: usize) -> Matrix<T> {
    let mut data = vec![T::zero(); n * n];
    for k in 0..n {
        data[k * n + k] = T::one();
    }
    Matrix::from_vec(n, n, data)
}

fn probe<T: EigenScalar>(jobvl: u8, jobvr: u8, n: usize) -> Option<usize> {
    let mut m = identity::<T>(n);
    let mut wr = vec![T::zero(); n];
    let mut wi = vec![T::zero(); n];
    workspace_size(jobvl, jobvr, &mut m, &mut wr, &mut wi)
}

fn yields_nothing<T: EigenScalar>(n: usize) {
    for want_left in [false, true] {
        for want_right in [false, true] {
            assert!(KernelOutput::<T>::run(identity(n), want_left, want_right).is_none());
            assert!(Eigen::<T>::new(identity(n), want_left, want_right).is_none());
        }
    }
    assert!(Eigen::<T>::complex_eigenvalues(identity(n)).is_none());
}

#[test]
fn failed_probe_ends_the_decomposition() {
    assert_eq!(probe::<Probed<7, 10>>(JOB_SKIP, JOB_SKIP, 3), None);
    assert_eq!(probe::<Probed<-1, 10>>(JOB_VECTORS, JOB_VECTORS, 3), None);
    yields_nothing::<Probed<7, 10>>(3);
    yields_nothing::<Probed<-1, 10>>(3);
}

#[test]
fn probe_without_a_length_ends_the_decomposition() {
    assert_eq!(probe::<Probed<0, 0>>(JOB_SKIP, JOB_SKIP, 3), None);
    assert_eq!(probe::<Probed<0, -1>>(JOB_SKIP, JOB_SKIP, 3), None);
    yields_nothing::<Probed<0, 0>>(3);
    yields_nothing::<Probed<0, -1>>(3);
}

#[test]
fn probe_with_too_short_a_length_ends_the_decomposition() {
    // Two elements for each row are fewer than any computation needs.
    assert_eq!(probe::<Probed<0, 2>>(JOB_SKIP, JOB_SKIP, 3), None);
    yields_nothing::<Probed<0, 2>>(3);
}

#[test]
fn three_elements_for_each_row_serve_only_where_no_vectors_are_wanted() {
    assert_eq!(probe::<Probed<0, 3>>(JOB_SKIP, JOB_SKIP, 4), Some(12));
    assert_eq!(probe::<Probed<0, 3>>(JOB_VECTORS, JOB_SKIP, 4), None);
    assert_eq!(probe::<Probed<0, 3>>(JOB_SKIP, JOB_VECTORS, 4), None);
    assert_eq!(probe::<Probed<0, 3>>(JOB_VECTORS, JOB_VECTORS, 4), None);
    assert_eq!(probe::<Probed<0, 4>>(JOB_VECTORS, JOB_VECTORS, 4), Some(16));
}
