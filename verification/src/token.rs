//! The errors of authentication tokens.

use vstd::prelude::*;

verus! {

/// Why an authentication token was refused.
#[derive(Debug, PartialEq, Eq, Structural)]
pub enum Error {
    HmacFailNewFromSlice,
    InvalidFormat,
    CannotDecodeIdent,
    CannotDecodeExp,
    SignatureNotMatching,
    ExpNotIso,
    Expired,
}

} // verus!
