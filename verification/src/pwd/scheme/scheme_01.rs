//! Scheme 01: HMAC-SHA512 of the content followed by the salt, in URL-safe
//! Base64.

use vstd::prelude::*;
use vstd::utf8::{encode_utf8, encode_utf8_decode_utf8};
use crate::b64::{b64u_encode, b64u_encode_spec, lemma_encode_len};
use crate::mac::{hmac_sha512, hmac_sha512_tag};
use crate::pwd::ContentToHash;
use super::Error;

verus! {

/// What scheme 01 makes of a content and a salt under a key.
pub open spec fn scheme_01_hash_spec(key: Seq<u8>, content: Seq<char>, salt: Seq<u8>) -> Seq<char> {
    b64u_encode_spec(hmac_sha512(key, encode_utf8(content) + salt))
}

/// Whether scheme 01 accepts `raw_pwd_ref` as the hash of a content and a
/// salt under a key.
pub open spec fn scheme_01_accepts(key: Seq<u8>, content: Seq<char>, salt: Seq<u8>, raw_pwd_ref: Seq<
    char,
>) -> bool {
    raw_pwd_ref == scheme_01_hash_spec(key, content, salt)
}

/// Scheme 01 accepts the hash that it makes, and no other text: a stored hash
/// checks against the password it was made from, and two texts that are
/// both accepted for one password are the same.
pub proof fn lemma_scheme_01_accepts_exactly_its_hash(
    key: Seq<u8>,
    content: Seq<char>,
    salt: Seq<u8>,
    other: Seq<char>,
)
    ensures
        scheme_01_accepts(key, content, salt, scheme_01_hash_spec(key, content, salt)),
        scheme_01_accepts(key, content, salt, other) ==> other == scheme_01_hash_spec(
            key,
            content,
            salt,
        ),
{
}

/// The hash of scheme 01 is the URL-safe Base64 of the HMAC-SHA512, under
/// the key, of the message made of all the UTF-8 bytes of the content
/// followed by all the bytes of the salt.
pub proof fn lemma_scheme_01_hash_message(key: Seq<u8>, content: Seq<char>, salt: Seq<u8>)
    ensures
        scheme_01_hash_spec(key, content, salt) == b64u_encode_spec(
            hmac_sha512(key, encode_utf8(content) + salt),
        ),
{
}

/// The message that scheme 01 authenticates tells contents apart: two
/// contents that differ, under the same salt, give different messages (so
/// no two passwords, e.g. differing only in case or in their end, share a
/// message).
pub proof fn lemma_scheme_01_message_distinguishes_contents(
    content1: Seq<char>,
    content2: Seq<char>,
    salt: Seq<u8>,
)
    ensures
        content1 != content2 ==> encode_utf8(content1) + salt != encode_utf8(content2) + salt,
{
    lemma_utf8_suffix_cancel(content1, content2, salt);
}

/// Equal messages with the same suffix have equal contents.
pub(crate) proof fn lemma_utf8_suffix_cancel(content1: Seq<char>, content2: Seq<char>, suffix: Seq<u8>)
    ensures
        encode_utf8(content1) + suffix == encode_utf8(content2) + suffix ==> content1 == content2,
{
    if encode_utf8(content1) + suffix == encode_utf8(content2) + suffix {
        let m = encode_utf8(content1) + suffix;
        let n1 = encode_utf8(content1).len();
        let n2 = encode_utf8(content2).len();
        assert(m.len() == n1 + suffix.len());
        assert((encode_utf8(content2) + suffix).len() == n2 + suffix.len());
        assert(n1 == n2);
        assert(encode_utf8(content1) =~= m.take(n1 as int));
        assert(encode_utf8(content2) =~= m.take(n2 as int));
        encode_utf8_decode_utf8(content1);
        encode_utf8_decode_utf8(content2);
    }
}

/// Password hashing scheme 01.
pub struct Scheme01;

impl Scheme01 {
    /// Hashes `to_hash` under `key`.
    pub fn hash(&self, key: &[u8], to_hash: &ContentToHash) -> (res: Result<String, Error>)
        ensures
            res matches Ok(h) && h@ == scheme_01_hash_spec(key@, to_hash.content@, to_hash.salt@),
            res matches Ok(h) && h@ == b64u_encode_spec(
                hmac_sha512(key@, encode_utf8(to_hash.content@) + to_hash.salt@),
            ),
            res matches Ok(h) ==> h@.len() == 86,
    {
        hash(key, to_hash)
    }

    /// Accepts `raw_pwd_ref` exactly when it is the hash of `to_hash` under
    /// `key`.
    pub fn validate(&self, key: &[u8], to_hash: &ContentToHash, raw_pwd_ref: &str) -> (res: Result<
        (),
        Error,
    >)
        ensures
            res is Ok <==> scheme_01_accepts(key@, to_hash.content@, to_hash.salt@, raw_pwd_ref@),
            res is Ok <==> raw_pwd_ref@ == b64u_encode_spec(
                hmac_sha512(key@, encode_utf8(to_hash.content@) + to_hash.salt@),
            ),
            res matches Err(e) ==> e == Error::PwdValidate,
    {
        let raw_pwd_new = match self.hash(key, to_hash) {
            Ok(h) => h,
            Err(e) => return Err(e),
        };
        check_hash(raw_pwd_new.as_str(), raw_pwd_ref)
    }
}

/// Accepts `raw_pwd_ref` exactly when it is `raw_pwd_new`, the hash just
/// computed.
pub fn check_hash(raw_pwd_new: &str, raw_pwd_ref: &str) -> (res: Result<(), Error>)
    ensures
        res is Ok <==> raw_pwd_new@ == raw_pwd_ref@,
        res matches Err(e) ==> e == Error::PwdValidate,
{
    if raw_pwd_new.to_owned() == raw_pwd_ref.to_owned() {
        Ok(())
    } else {
        Err(Error::PwdValidate)
    }
}

/// HMAC-SHA512 under `key` of the UTF-8 bytes of the content followed by the
/// salt bytes, encoded as URL-safe Base64 without padding.
pub fn hash(key: &[u8], to_hash: &ContentToHash) -> (res: Result<String, Error>)
    ensures
        res matches Ok(h) && h@ == scheme_01_hash_spec(key@, to_hash.content@, to_hash.salt@),
        res matches Ok(h) && h@ == b64u_encode_spec(
            hmac_sha512(key@, encode_utf8(to_hash.content@) + to_hash.salt@),
        ),
        res matches Ok(h) ==> h@.len() == 86,
{
    let content = to_hash.content.as_str().as_bytes();
    let salt = to_hash.salt.as_slice();
    let tag = match hmac_sha512_tag(key, content, salt) {
        Ok(tag) => tag,
        Err(_) => return Err(Error::Key),
    };
    proof {
        lemma_encode_len(tag@);
    }
    Ok(b64u_encode(tag.as_slice()))
}

} // verus!
