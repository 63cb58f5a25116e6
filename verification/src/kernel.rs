//! The binding to the general-eigenvalue kernel, and what makes a call of it
//! legal.

use vstd::prelude::*;
use crate::scalar::Scalar;

verus! {

/// Job flag: compute the eigenvectors of this side. The letter `V`.
pub const JOB_VECTORS: u8 = 86;

/// Job flag: compute no eigenvectors for this side. The letter `N`, which is
/// the one flag besides `V` that the kernel accepts.
pub const JOB_SKIP: u8 = 78;

/// Whether the kernel reads a job flag as a request for eigenvectors. It
/// compares without regard to case, so `V` and `v` both count.
pub open spec fn wants_vectors(job: u8) -> bool {
    job == 86 || job == 118
}

/// Whether the kernel accepts a job flag: `V` or `N`, in either case.
pub open spec fn is_job(job: u8) -> bool {
    wants_vectors(job) || job == 78 || job == 110
}

/// The shortest scratch buffer that the kernel accepts: one element for
/// order zero, else `4 * n` where eigenvectors are wanted on some side and
/// `3 * n` where on none.
pub open spec fn minimal_work(jobvl: u8, jobvr: u8, n: int) -> int {
    if n == 0 {
        1
    } else if wants_vectors(jobvl) || wants_vectors(jobvr) {
        4 * n
    } else {
        3 * n
    }
}

/// The job flags and dimensions are ones that the kernel accepts, and the
/// matrix and the two eigenvalue buffers are as long as the dimensions say.
/// A probe asks no more: it touches no eigenvector buffer.
pub open spec fn probe_is_legal(
    jobvl: u8,
    jobvr: u8,
    n: int,
    a_len: nat,
    lda: int,
    wr_len: nat,
    wi_len: nat,
    ldvl: int,
    ldvr: int,
) -> bool {
    &&& is_job(jobvl)
    &&& is_job(jobvr)
    &&& 0 <= n
    &&& lda >= 1 && lda >= n
    &&& ldvl >= 1 && (wants_vectors(jobvl) ==> ldvl >= n)
    &&& ldvr >= 1 && (wants_vectors(jobvr) ==> ldvr >= n)
    &&& a_len >= lda * n
    &&& wr_len >= n
    &&& wi_len >= n
}

/// Everything that the kernel asks of a call that computes: legal job flags
/// and dimensions, `n` columns at its stride behind each eigenvector buffer
/// whose job flag asks for vectors, and a scratch buffer of the `lwork`
/// elements announced, which are at least [`minimal_work`].
pub open spec fn call_is_legal(
    jobvl: u8,
    jobvr: u8,
    n: int,
    a_len: nat,
    lda: int,
    wr_len: nat,
    wi_len: nat,
    vl_len: nat,
    ldvl: int,
    vr_len: nat,
    ldvr: int,
    work_len: nat,
    lwork: int,
) -> bool {
    &&& probe_is_legal(jobvl, jobvr, n, a_len, lda, wr_len, wi_len, ldvl, ldvr)
    &&& wants_vectors(jobvl) ==> vl_len >= ldvl * n
    &&& wants_vectors(jobvr) ==> vr_len >= ldvr * n
    &&& lwork >= minimal_work(jobvl, jobvr, n)
    &&& work_len >= lwork
}

/// A scalar for which a general-eigenvalue kernel exists.
///
/// Both methods follow the `xGEEV` calling convention of LAPACK: matrices are
/// column-major, `lda`, `ldvl` and `ldvr` are strides between columns, and
/// `info` receives the status, `0` on success and `k > 0` where the
/// iteration failed to converge.
///
/// Nothing is proved of an implementation. Callers owe it arguments that
/// the kernel documents as legal, since a kernel may stop the program on
/// others. In return the library takes two things for granted: each buffer
/// comes back as long as it went in, as holds of every function that is
/// handed mutable slices, and a computation on legal arguments reports no
/// illegal argument, so its status is not negative. Of what the buffers hold
/// afterwards it assumes nothing.
pub trait EigenScalar: Scalar {
    /// Runs the kernel: overwrites `a`, fills `wr` and `wi` with the real and
    /// imaginary parts of the eigenvalues and, for each side whose job flag
    /// asks for it, that side's eigenvector buffer.
    fn xgeev(
        jobvl: u8,
        jobvr: u8,
        n: i32,
        a: &mut [Self],
        lda: i32,
        wr: &mut [Self],
        wi: &mut [Self],
        vl: &mut [Self],
        ldvl: i32,
        vr: &mut [Self],
        ldvr: i32,
        work: &mut [Self],
        lwork: i32,
        info: &mut i32,
    )
        requires
            call_is_legal(
                jobvl,
                jobvr,
                n as int,
                old(a)@.len(),
                lda as int,
                old(wr)@.len(),
                old(wi)@.len(),
                old(vl)@.len(),
                ldvl as int,
                old(vr)@.len(),
                ldvr as int,
                old(work)@.len(),
                lwork as int,
            ),
        ensures
            final(a)@.len() == old(a)@.len(),
            final(wr)@.len() == old(wr)@.len(),
            final(wi)@.len() == old(wi)@.len(),
            final(vl)@.len() == old(vl)@.len(),
            final(vr)@.len() == old(vr)@.len(),
            final(work)@.len() == old(work)@.len(),
            *final(info) >= 0,
    ;

    /// Probes the kernel for the scratch length it wants for a later call
    /// with the same job flags and dimensions, and returns that length.
    fn xgeev_work_size(
        jobvl: u8,
        jobvr: u8,
        n: i32,
        a: &mut [Self],
        lda: i32,
        wr: &mut [Self],
        wi: &mut [Self],
        vl: &mut [Self],
        ldvl: i32,
        vr: &mut [Self],
        ldvr: i32,
        info: &mut i32,
    ) -> (lwork: i32)
        requires
            probe_is_legal(
                jobvl,
                jobvr,
                n as int,
                old(a)@.len(),
                lda as int,
                old(wr)@.len(),
                old(wi)@.len(),
                ldvl as int,
                ldvr as int,
            ),
        ensures
            final(a)@.len() == old(a)@.len(),
            final(wr)@.len() == old(wr)@.len(),
            final(wi)@.len() == old(wi)@.len(),
            final(vl)@.len() == old(vl)@.len(),
            final(vr)@.len() == old(vr)@.len(),
    ;
}

/// Whether a job flag asks for eigenvectors.
#[verifier::when_used_as_spec(wants_vectors)]
pub fn is_vectors_job(job: u8) -> (wants: bool)
    ensures
        wants == wants_vectors(job),
{
    job == 86 || job == 118
}

/// Whether the kernel accepts a job flag.
pub fn is_legal_job(job: u8) -> (legal: bool)
    ensures
        legal == is_job(job),
{
    is_vectors_job(job) || job == 78 || job == 110
}

/// The shortest scratch buffer that the kernel accepts for these job flags
/// and this order.
pub fn minimal_work_length(jobvl: u8, jobvr: u8, n: i32) -> (len: i64)
    requires
        0 <= n,
    ensures
        len == minimal_work(jobvl, jobvr, n as int),
        1 <= len,
{
    if n == 0 {
        1
    } else if is_vectors_job(jobvl) || is_vectors_job(jobvr) {
        4 * (n as i64)
    } else {
        3 * (n as i64)
    }
}

/// Whether a buffer of `len` elements holds `n` columns at a stride of `ld`.
pub fn holds_columns(len: usize, ld: i32, n: i32) -> (ok: bool)
    requires
        0 <= n,
    ensures
        ok == (len >= ld * n),
{
    if ld <= 0 || n == 0 {
        assert(ld * n <= 0) by (nonlinear_arith)
            requires
                ld <= 0 || n == 0,
                0 <= n,
        ;
        true
    } else {
        assert(0 < ld * n <= 0x7fff_ffff * 0x7fff_ffff) by (nonlinear_arith)
            requires
                0 < ld <= 0x7fff_ffff,
                0 < n <= 0x7fff_ffff,
        ;
        len as u64 >= ld as u64 * n as u64
    }
}

/// Tests [`probe_is_legal`] on the lengths of actual buffers.
pub fn check_probe(
    jobvl: u8,
    jobvr: u8,
    n: i32,
    a_len: usize,
    lda: i32,
    wr_len: usize,
    wi_len: usize,
    ldvl: i32,
    ldvr: i32,
) -> (ok: bool)
    ensures
        ok == probe_is_legal(
            jobvl,
            jobvr,
            n as int,
            a_len as nat,
            lda as int,
            wr_len as nat,
            wi_len as nat,
            ldvl as int,
            ldvr as int,
        ),
{
    is_legal_job(jobvl)
        && is_legal_job(jobvr)
        && n >= 0
        && lda >= 1
        && lda >= n
        && ldvl >= 1
        && (!is_vectors_job(jobvl) || ldvl >= n)
        && ldvr >= 1
        && (!is_vectors_job(jobvr) || ldvr >= n)
        && holds_columns(a_len, lda, n)
        && wr_len as u64 >= n as u64
        && wi_len as u64 >= n as u64
}

/// Tests [`call_is_legal`] on the lengths of actual buffers: what an
/// implementation of [`EigenScalar`] can ask before it lets a kernel loose on
/// them.
pub fn check_call(
    jobvl: u8,
    jobvr: u8,
    n: i32,
    a_len: usize,
    lda: i32,
    wr_len: usize,
    wi_len: usize,
    vl_len: usize,
    ldvl: i32,
    vr_len: usize,
    ldvr: i32,
    work_len: usize,
    lwork: i32,
) -> (ok: bool)
    ensures
        ok == call_is_legal(
            jobvl,
            jobvr,
            n as int,
            a_len as nat,
            lda as int,
            wr_len as nat,
            wi_len as nat,
            vl_len as nat,
            ldvl as int,
            vr_len as nat,
            ldvr as int,
            work_len as nat,
            lwork as int,
        ),
{
    check_probe(jobvl, jobvr, n, a_len, lda, wr_len, wi_len, ldvl, ldvr)
        && (!is_vectors_job(jobvl) || holds_columns(vl_len, ldvl, n))
        && (!is_vectors_job(jobvr) || holds_columns(vr_len, ldvr, n))
        && lwork as i64 >= minimal_work_length(jobvl, jobvr, n)
        && work_len as u64 >= lwork as u64
}

} // verus!
