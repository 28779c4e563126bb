//! Errors of password hashing.

use vstd::prelude::*;
use crate::pwd::scheme;

verus! {

/// The errors of password hashing.
#[derive(Debug, PartialEq, Eq, Structural)]
pub enum Error {
    PwdWithSchemeFailedParse,
    FailSpawnBlockForHash,
    FailSpawnBlockForValidate,
    Scheme(scheme::Error),
}

impl From<scheme::Error> for Error {
    fn from(e: scheme::Error) -> (res: Self) {
        Error::Scheme(e)
    }
}

impl vstd::std_specs::convert::FromSpecImpl<scheme::Error> for Error {
    open spec fn obeys_from_spec() -> bool {
        true
    }

    open spec fn from_spec(e: scheme::Error) -> Self {
        Error::Scheme(e)
    }
}

} // verus!
