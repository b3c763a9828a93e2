use vstd::prelude::*;

use crate::error::HyperliquidError;
use tokio::runtime::Runtime;

verus! {

#[verifier::external_type_specification]
#[verifier::external_body]
pub struct ExRuntime(Runtime);

/// Relies on tokio's `Runtime::new`, which builds a multi-threaded runtime
/// or reports the I/O error that stopped it. Whether it succeeds depends on
/// the machine, so nothing is promised of the outcome.
#[verifier::external_body]
fn build_runtime() -> (r: Result<Runtime, String>) {
    Runtime::new().map_err(|e| e.to_string())
}

/// The task runner that a session owns, on which blocking entry points wait
/// for the venue client's asynchronous operations.
pub struct ExecutionContext {
    runtime: Runtime,
}

impl ExecutionContext {
    /// Wraps the outcome of building a runner: a runner becomes a context, a
    /// failure becomes a `NetworkError` with the runner's text.
    pub fn from_runtime(built: Result<Runtime, String>) -> (r: Result<
        ExecutionContext,
        HyperliquidError,
    >)
        ensures
            built is Ok <==> r is Ok,
            built is Err ==> r == Err::<ExecutionContext, HyperliquidError>(
                HyperliquidError::NetworkError { message: built->Err_0 },
            ),
    {
        match built {
            Ok(runtime) => Ok(ExecutionContext { runtime }),
            Err(message) => Err(HyperliquidError::NetworkError { message }),
        }
    }

    /// Creates a dedicated runner. The only failure is a `NetworkError`.
    pub fn new() -> (r: Result<ExecutionContext, HyperliquidError>)
        ensures
            r is Err ==> r->Err_0 is NetworkError,
    {
        ExecutionContext::from_runtime(build_runtime())
    }

    /// The runner, on which the caller blocks for one operation at a time.
    pub fn runtime(&self) -> &Runtime {
        &self.runtime
    }
}

} // verus!
