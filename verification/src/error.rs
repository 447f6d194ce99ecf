//! The error of checking a query's arguments.
use crate::text::owned;
use vstd::prelude::*;

verus! {

/// The arguments of a query are not usable.
#[derive(Debug, PartialEq, Eq, Structural, Clone, Copy)]
pub enum Error {
    Args,
}

impl Error {
    /// The message shown for this error.
    pub fn message(&self) -> (r: String)
        ensures
            r@ == "Error parsing cli arguments"@,
    {
        owned("Error parsing cli arguments")
    }
}

} // verus!
