//! Password hashing by scheme.

use vstd::prelude::*;

pub mod error;
pub mod scheme;

pub use self::error::Error;

use vstd::utf8::encode_utf8;
use crate::b64::b64u_encode_spec;
use crate::mac::hmac_sha512;
use crate::crypt::pwd::with_scheme_tag;
use self::scheme::scheme_01::{hash, scheme_01_hash_spec};

verus! {

/// The clear content to hash and the salt to hash it with. The salt is a
/// UUID, held as its sixteen bytes.
pub struct ContentToHash {
    pub content: String,
    pub salt: [u8; 16],
}

/// The stored form of a password hashed with the default scheme 01: `#01#`
/// followed by the scheme's hash.
pub open spec fn hash_pwd_spec(key: Seq<u8>, content: Seq<char>, salt: Seq<u8>) -> Seq<char> {
    seq!['#', '0', '1', '#'] + scheme_01_hash_spec(key, content, salt)
}

/// The stored form is `#01#` followed by exactly the scheme 01 hash of the
/// whole content: the same text that `Scheme01::hash` gives for it.
pub proof fn lemma_hash_pwd_is_tagged_scheme_01_hash(key: Seq<u8>, content: Seq<char>, salt: Seq<u8>)
    ensures
        hash_pwd_spec(key, content, salt) == seq!['#', '0', '1', '#'] + scheme_01_hash_spec(
            key,
            content,
            salt,
        ),
        hash_pwd_spec(key, content, salt) == seq!['#', '0', '1', '#'] + b64u_encode_spec(
            hmac_sha512(key, encode_utf8(content) + salt),
        ),
        hash_pwd_spec(key, content, salt).skip(4) == scheme_01_hash_spec(key, content, salt),
{
    assert((seq!['#', '0', '1', '#'] + scheme_01_hash_spec(key, content, salt)).skip(4)
        =~= scheme_01_hash_spec(key, content, salt));
}

/// Hashes `to_hash` under `key` with the default scheme, in the stored form
/// `#01#` followed by the hash.
pub fn hash_pwd(key: &[u8], to_hash: &ContentToHash) -> (res: Result<String, Error>)
    ensures
        res matches Ok(s) && s@ == hash_pwd_spec(key@, to_hash.content@, to_hash.salt@),
        res matches Ok(s) && s@ == seq!['#', '0', '1', '#'] + b64u_encode_spec(
            hmac_sha512(key@, encode_utf8(to_hash.content@) + to_hash.salt@),
        ),
        res matches Ok(s) ==> s@.len() == 90,
{
    match hash(key, to_hash) {
        Ok(pwd_hashed) => Ok(with_scheme_tag(pwd_hashed.as_str())),
        Err(e) => Err(Error::Scheme(e)),
    }
}

} // verus!
