//! The ways in which building a router fails.

use vstd::prelude::*;
use vstd::std_specs::convert::FromSpecImpl;

verus! {

/// Why a router could not be built.
#[derive(Debug)]
pub enum RouterError {
    /// The engine refused the combined pattern; its diagnostic is carried.
    RegexError(regex::Error),
    /// No route was defined.
    EmptyRouterError,
}

impl From<regex::Error> for RouterError {
    fn from(err: regex::Error) -> (result: Self) {
        RouterError::RegexError(err)
    }
}

impl FromSpecImpl<regex::Error> for RouterError {
    open spec fn obeys_from_spec() -> bool {
        true
    }

    open spec fn from_spec(err: regex::Error) -> Self {
        RouterError::RegexError(err)
    }
}

} // verus!
