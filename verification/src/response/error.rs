//! Errors of interpreting a response.
use crate::text::owned;
use vstd::prelude::*;

verus! {

/// Why a page of a response could not be turned into a result.
#[derive(Debug, PartialEq, Eq, Structural, Clone, Copy)]
pub enum FromResultHelperError {
    ConvertPageid,
    ConvertNamespace,
    MissingField,
}

impl FromResultHelperError {
    /// The message shown for this error.
    pub fn message(&self) -> (r: String)
        ensures
            r@ == match self {
                FromResultHelperError::ConvertPageid =>
                    "failed to parse pageid (i32 could not be converted into u32)"@,
                FromResultHelperError::ConvertNamespace =>
                    "failed to parse namespace (u16 could not be converted into NAMESPACE)"@,
                FromResultHelperError::MissingField =>
                    "result helper is missing necessary fields (pageid, title, ns)"@,
            },
    {
        match self {
            FromResultHelperError::ConvertPageid => owned(
                "failed to parse pageid (i32 could not be converted into u32)",
            ),
            FromResultHelperError::ConvertNamespace => owned(
                "failed to parse namespace (u16 could not be converted into NAMESPACE)",
            ),
            FromResultHelperError::MissingField => owned(
                "result helper is missing necessary fields (pageid, title, ns)",
            ),
        }
    }
}

} // verus!
