//! The process-wide worker thread pool.
use vstd::prelude::*;

use rayon::ThreadPoolBuildError;

use crate::naming::worker_thread_name;

verus! {

#[verifier::external_type_specification]
#[verifier::external_body]
pub struct ExThreadPoolBuildError(ThreadPoolBuildError);

/// Why the global thread pool could not be installed.
#[derive(Clone, Copy, Debug, PartialEq, Eq, Structural)]
pub enum PoolInitError {
    /// The pool was already installed in this process, or its threads could
    /// not be started.
    BuildFailed,
}

/// Relies on rayon's `ThreadPoolBuilder::new`, `thread_name` and
/// `build_global`: installs the global pool, its workers named by
/// `worker_thread_name`, and returns an error when a global pool already
/// exists.
#[verifier::external_body]
fn build_global_pool() -> (r: Result<(), ThreadPoolBuildError>) {
    rayon::ThreadPoolBuilder::new().thread_name(|i| worker_thread_name(i)).build_global()
}

/// The library's reading of the outcome of installing the pool: any failure
/// is `BuildFailed`.
pub fn pool_outcome(r: Result<(), ThreadPoolBuildError>) -> (out: Result<(), PoolInitError>)
    ensures
        out.is_ok() == r.is_ok(),
        out.is_err() ==> out == Err::<(), PoolInitError>(PoolInitError::BuildFailed),
{
    match r {
        Ok(()) => Ok(()),
        Err(_) => Err(PoolInitError::BuildFailed),
    }
}

/// Installs the process-wide worker pool, whose thread with index `i` is
/// named `zc-rayon-<i>`.
///
/// The pool can be installed once per process: a second request fails with
/// `BuildFailed`, and the caller is expected to treat that as fatal.
pub fn rayon_threadpool() -> (r: Result<(), PoolInitError>)
    ensures
        r.is_err() ==> r == Err::<(), PoolInitError>(PoolInitError::BuildFailed),
{
    pool_outcome(build_global_pool())
}

} // verus!
