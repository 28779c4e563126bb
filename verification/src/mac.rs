//! HMAC-SHA512, computed by the `hmac` and `sha2` crates.

use vstd::prelude::*;
use hmac::{Hmac, Mac};
use hmac::digest::InvalidLength;
use sha2::Sha512;

verus! {

/// The error that `hmac` reports for a key of a length it does not take.
#[verifier::external_type_specification]
#[verifier::external_body]
pub struct ExInvalidLength(hmac::digest::InvalidLength);

/// The HMAC-SHA512 tag (RFC 2104 over SHA-512) of `message` under `key`.
pub uninterp spec fn hmac_sha512(key: Seq<u8>, message: Seq<u8>) -> Seq<u8>;

/// Computes HMAC-SHA512 under `key` of `first` followed by `second`:
/// `Hmac::<Sha512>::new_from_slice`, then `Mac::update` with each part, then
/// `Mac::finalize`. Trusted: the tag is the HMAC of the concatenation, since
/// `update` feeds the data in order; it is 64 bytes, the output size of
/// SHA-512; and `new_from_slice` succeeds, since `HmacCore` takes a key of
/// any length (a longer key is hashed first).
#[verifier::external_body]
pub(crate) fn hmac_sha512_tag(key: &[u8], first: &[u8], second: &[u8]) -> (res: Result<
    Vec<u8>,
    InvalidLength,
>)
    ensures
        res is Ok,
        res.unwrap()@ == hmac_sha512(key@, first@ + second@),
        res.unwrap()@.len() == 64,
{
    let mut mac = Hmac::<Sha512>::new_from_slice(key)?;
    mac.update(first);
    mac.update(second);
    Ok(mac.finalize().into_bytes().to_vec())
}

} // verus!
