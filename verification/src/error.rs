//! The failure kinds of the service, and the uniform wire shape every one of
//! them is rendered to.

use vstd::prelude::*;

verus! {

/// Why the per-function optimizer declined a function.  The pipeline treats
/// this as recoverable: the function is kept in its prior form.
pub struct OptimizeError {
    pub message: String,
}

/// The uniform failure result of a remote call: a code and a human-readable
/// description, nothing more structured.
#[derive(Debug)]
pub struct RpcError {
    pub code: i64,
    pub message: String,
}

/// The code every internal error is rendered with.
pub const INTERNAL_ERROR_CODE: i64 = -32603;

/// Wraps a description as the uniform internal-error result.
pub fn internal_server_error(description: String) -> (r: RpcError)
    ensures
        r.code == INTERNAL_ERROR_CODE,
        r.message@ == description@,
{
    RpcError { code: INTERNAL_ERROR_CODE, message: description }
}

} // verus!
