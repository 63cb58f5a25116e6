//! Eigendecomposition of real square matrices on top of a general-eigenvalue
//! kernel in the LAPACK calling convention.
//!
//! The kernel itself is reached through [`kernel::EigenScalar`], which a scalar
//! type implements once per precision. Everything around the two kernel calls
//! lives here: the job flags and buffer shapes, the workspace probe, the
//! proof that the kernel is only ever handed arguments it accepts, the status
//! policy, the realness check and the packaging of the result.
//!
//! A decomposition consumes its matrix: the kernel overwrites the storage in
//! place.

pub mod scalar;
pub mod matrix;
pub mod complex;
pub mod kernel;
pub mod output;
pub mod workspace;
pub mod eigen;
pub mod scaling;
