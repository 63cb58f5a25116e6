//! The column-major matrix.

use real_eigen::matrix::{filled, Matrix};
use real_eigen::scalar::Scalar;

#[derive(Clone, Copy, Debug, PartialEq)]
struct Real(f64);

impl Scalar for Real {
    fn zero() -> Self {
        Real(0.0)
    }

    fn one() -> Self {
        Real(1.0)
    }

    fn is_zero(&self) -> bool {
        self.0 == 0.0
    }

    fn times(self, rhs: Self) -> Self {
        Real(self.0 * rhs.0)
    }

    fn over(self, rhs: Self) -> Self {
        Real(self.0 / rhs.0)
    }
}

#[test]
fn entries_lie_column_after_column() {
    // [[1, 3, 5], [2, 4, 6]]
    let m = Matrix::from_vec(2, 3, vec![1, 2, 3, 4, 5, 6]);
    assert_eq!(m.nrows(), 2);
    assert_eq!(m.ncols(), 3);
    assert_eq!(m.shape(), (2, 3));
    assert_eq!(m.len(), 6);
    assert_eq!(m.get(0, 0), 1);
    assert_eq!(m.get(1, 0), 2);
    assert_eq!(m.get(0, 1), 3);
    assert_eq!(m.get(1, 2), 6);
    assert_eq!(m.as_slice(), &[1, 2, 3, 4, 5, 6]);
    assert_eq!(m.into_vec(), vec![1, 2, 3, 4, 5, 6]);
}

#[test]
fn squareness_compares_rows_and_columns() {
    assert!(Matrix::from_vec(2, 2, vec![0; 4]).is_square());
    assert!(Matrix::<u8>::from_vec(0, 0, vec![]).is_square());
    assert!(!Matrix::from_vec(2, 3, vec![0; 6]).is_square());
    assert!(!Matrix::from_vec(1, 0, Vec::<u8>::new()).is_square());
}

#[test]
fn zeros_holds_the_zero_of_the_scalar() {
    let m: Matrix<Real> = Matrix::zeros(3, 2);
    assert_eq!(m.shape(), (3, 2));
    assert_eq!(m.as_slice(), &[Real(0.0); 6]);
    let empty: Matrix<Real> = Matrix::zeros(0, 4);
    assert_eq!(empty.shape(), (0, 4));
    assert_eq!(empty.len(), 0);
}

#[test]
fn from_element_repeats_one_value() {
    let m = Matrix::from_element(2, 2, 7u32);
    assert_eq!(m.into_vec(), vec![7, 7, 7, 7]);
}

#[test]
fn writes_through_the_mutable_slice_stay() {
    let mut m = Matrix::from_vec(2, 2, vec![1, 2, 3, 4]);
    m.as_mut_slice()[3] = 9;
    assert_eq!(m.get(1, 1), 9);
    assert_eq!(m.shape(), (2, 2));
}

#[test]
fn filled_repeats_a_value() {
    assert_eq!(filled(5u8, 3), vec![5, 5, 5]);
    assert_eq!(filled(5u8, 0), Vec::<u8>::new());
}
