//! Errors returned to the caller of a single request.
//!
//! A failed request is local: it is handed back to the immediate caller and
//! never escalated.

use vstd::prelude::*;

verus! {

/// Why a request against a window or the loop was not carried out.
#[derive(Debug, Clone, Copy, PartialEq, Eq, Structural)]
pub enum RequestError {
    /// The target of the request is gone, so the request had no effect.
    Ignored,
    /// The platform cannot carry out this kind of request.
    NotSupported,
}

} // verus!
