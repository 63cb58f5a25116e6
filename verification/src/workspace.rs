//! The workspace query: how long a scratch buffer the kernel wants.

use vstd::prelude::*;
use crate::kernel::{EigenScalar, is_job, minimal_work, minimal_work_length};
use crate::matrix::{Matrix, filled};

verus! {

/// What a probe's answer is worth for a call with these job flags and this
/// order: the reported length where the probe succeeded and the kernel
/// accepts a scratch buffer of that length, nothing otherwise.
pub open spec fn spec_scratch_length(
    info: i32,
    lwork: i32,
    jobvl: u8,
    jobvr: u8,
    n: i32,
) -> Option<usize> {
    if info == 0 && lwork >= minimal_work(jobvl, jobvr, n as int) {
        Some(lwork as usize)
    } else {
        None
    }
}

/// Reads a probe's answer. See [`spec_scratch_length`].
#[verifier::when_used_as_spec(spec_scratch_length)]
pub fn scratch_length(info: i32, lwork: i32, jobvl: u8, jobvr: u8, n: i32) -> (len: Option<usize>)
    requires
        0 <= n,
    ensures
        len == spec_scratch_length(info, lwork, jobvl, jobvr, n),
        len matches Some(l) ==> minimal_work(jobvl, jobvr, n as int) <= l <= i32::MAX,
{
    if info == 0 && lwork as i64 >= minimal_work_length(jobvl, jobvr, n) {
        Some(lwork as usize)
    } else {
        None
    }
}

/// Asks the kernel how long a scratch buffer it wants for decomposing `m`
/// with the given job flags.
///
/// The probe is handed the matrix and the eigenvalue buffers of the later
/// call, the order of the matrix as every leading dimension, and a
/// one-element placeholder for each eigenvector side. Returns the length
/// where the probe reports success and a length that the kernel accepts, and
/// `None` otherwise.
pub fn workspace_size<T: EigenScalar>(
    jobvl: u8,
    jobvr: u8,
    m: &mut Matrix<T>,
    wr: &mut Vec<T>,
    wi: &mut Vec<T>,
) -> (len: Option<usize>)
    requires
        is_job(jobvl),
        is_job(jobvr),
        old(m).wf(),
        old(m).spec_is_square(),
        1 <= old(m).spec_nrows() <= i32::MAX,
        old(wr)@.len() == old(m).spec_nrows(),
        old(wi)@.len() == old(m).spec_nrows(),
    ensures
        final(m).wf(),
        final(m).spec_nrows() == old(m).spec_nrows(),
        final(m).spec_ncols() == old(m).spec_ncols(),
        final(wr)@.len() == old(wr)@.len(),
        final(wi)@.len() == old(wi)@.len(),
        len matches Some(l) ==> minimal_work(jobvl, jobvr, old(m).spec_nrows() as int) <= l
            <= i32::MAX,
        // One probe was made: with these job flags, the order of the matrix as
        // the order and as every leading dimension, the three buffers as they
        // came in, and a placeholder of one element for each side. The
        // buffers come back as the probe left them, and the result is what
        // its status and its answer are worth.
        (exists|
            a: &mut [T],
            pwr: &mut [T],
            pwi: &mut [T],
            vl: &mut [T],
            vr: &mut [T],
            info: &mut i32,
            n: i32,
            lwork: i32,
        |
            {
                &&& n == old(m).spec_nrows()
                &&& a@ == old(m)@
                &&& pwr@ == old(wr)@
                &&& pwi@ == old(wi)@
                &&& vl@.len() == 1
                &&& vr@.len() == 1
                &&& #[trigger] call_ensures(
                    T::xgeev_work_size,
                    (jobvl, jobvr, n, a, n, pwr, pwi, vl, n, vr, n, info),
                    lwork,
                )
                &&& final(m)@ == final(a)@
                &&& final(wr)@ == final(pwr)@
                &&& final(wi)@ == final(pwi)@
                &&& len == spec_scratch_length(*final(info), lwork, jobvl, jobvr, n)
            }),
{
    let n = m.nrows() as i32;
    let mut placeholder1 = filled(T::zero(), 1);
    let mut placeholder2 = filled(T::zero(), 1);
    let mut info: i32 = 0;
    proof {
        m.lemma_len();
    }
    let lwork = T::xgeev_work_size(
        jobvl,
        jobvr,
        n,
        m.as_mut_slice(),
        n,
        wr.as_mut_slice(),
        wi.as_mut_slice(),
        placeholder1.as_mut_slice(),
        n,
        placeholder2.as_mut_slice(),
        n,
        &mut info,
    );
    scratch_length(info, lwork, jobvl, jobvr, n)
}

} // verus!
