//! Errors of building or sending a request.
use vstd::prelude::*;

verus! {

/// A request could not be built, or the HTTP client failed; each variant
/// carries the underlying error's message.
#[derive(Debug)]
pub enum RequestError {
    BuildQuery(String),
    ReqwestError(String),
}

} // verus!
