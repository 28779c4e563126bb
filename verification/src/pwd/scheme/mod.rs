//! Hashing schemes.

use vstd::prelude::*;

pub mod scheme_01;

verus! {

/// The errors of a hashing scheme.
#[derive(Debug, PartialEq, Eq, Structural)]
pub enum Error {
    Key,
    PwdValidate,
}

} // verus!
