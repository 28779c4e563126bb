//! Encryption of content with a salt: HMAC-SHA512 in URL-safe Base64.

use vstd::prelude::*;
use vstd::utf8::encode_utf8;
use crate::b64::{b64u_encode, b64u_encode_spec, lemma_encode_len};
use crate::mac::{hmac_sha512, hmac_sha512_tag};
use crate::pwd::scheme::scheme_01::lemma_utf8_suffix_cancel;

pub mod pwd;

verus! {

/// The errors of encryption.
#[derive(Debug, PartialEq, Eq, Structural)]
pub enum Error {
    KeyFailHmac,
    PwdNotMatching,
}

/// The content to encrypt and its salt.
pub struct EncryptContent {
    pub content: String,
    pub salt: String,
}

/// What `encrypt_into_b64u` makes of a content and a salt under a key.
pub open spec fn encrypt_b64u_spec(key: Seq<u8>, content: Seq<char>, salt: Seq<char>) -> Seq<char> {
    b64u_encode_spec(hmac_sha512(key, encode_utf8(content) + encode_utf8(salt)))
}

/// The encryption is the URL-safe Base64 of the HMAC-SHA512, under the key,
/// of all the UTF-8 bytes of the content followed by all those of the salt;
/// and two contents that differ give, under one salt, different messages.
pub proof fn lemma_encrypt_message(key: Seq<u8>, content: Seq<char>, other: Seq<char>, salt: Seq<char>)
    ensures
        encrypt_b64u_spec(key, content, salt) == b64u_encode_spec(
            hmac_sha512(key, encode_utf8(content) + encode_utf8(salt)),
        ),
        content != other ==> encode_utf8(content) + encode_utf8(salt) != encode_utf8(other)
            + encode_utf8(salt),
{
    lemma_utf8_suffix_cancel(content, other, encode_utf8(salt));
}

/// HMAC-SHA512 under `key` of the UTF-8 bytes of the content followed by
/// those of the salt, encoded as URL-safe Base64 without padding.
pub fn encrypt_into_b64u(key: &[u8], enc_content: &EncryptContent) -> (res: Result<String, Error>)
    ensures
        res matches Ok(s) && s@ == encrypt_b64u_spec(key@, enc_content.content@, enc_content.salt@),
        res matches Ok(s) && s@ == b64u_encode_spec(
            hmac_sha512(key@, encode_utf8(enc_content.content@) + encode_utf8(enc_content.salt@)),
        ),
        res matches Ok(s) ==> s@.len() == 86,
{
    let content = enc_content.content.as_str().as_bytes();
    let salt = enc_content.salt.as_str().as_bytes();
    let tag = match hmac_sha512_tag(key, content, salt) {
        Ok(tag) => tag,
        Err(_) => return Err(Error::KeyFailHmac),
    };
    proof {
        lemma_encode_len(tag@);
    }
    Ok(b64u_encode(tag.as_slice()))
}

} // verus!
