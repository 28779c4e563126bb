//! The database store.

use vstd::prelude::*;

verus! {

/// The errors of the store.
pub enum Error {
    FailToCreatePool(String),
}

/// The largest number of connections of the pool: one under test, five
/// otherwise.
pub fn max_connections(for_test: bool) -> (n: u32)
    ensures
        n == (if for_test { 1u32 } else { 5u32 }),
{
    if for_test {
        1
    } else {
        5
    }
}

} // verus!
