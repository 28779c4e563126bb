//! Password encryption with the default scheme, written `#01#` followed by
//! the encrypted content.

use vstd::prelude::*;
use vstd::utf8::encode_utf8;
use crate::b64::b64u_encode_spec;
use crate::mac::hmac_sha512;
use crate::text::push_char;
use super::{encrypt_b64u_spec, encrypt_into_b64u, EncryptContent, Error};

verus! {

/// The stored form of a password: the scheme tag `#01#` and the encryption.
pub open spec fn encrypt_pwd_spec(key: Seq<u8>, content: Seq<char>, salt: Seq<char>) -> Seq<char> {
    seq!['#', '0', '1', '#'] + encrypt_b64u_spec(key, content, salt)
}

/// Whether `pwd_ref` is the stored form of a password.
pub open spec fn pwd_matches(key: Seq<u8>, content: Seq<char>, salt: Seq<char>, pwd_ref: Seq<char>) -> bool {
    pwd_ref == encrypt_pwd_spec(key, content, salt)
}

/// The stored form of a password names scheme 01 in its first four
/// characters, and `validate_pwd` accepts it and no other text.
pub proof fn lemma_pwd_accepts_exactly_its_encryption(
    key: Seq<u8>,
    content: Seq<char>,
    salt: Seq<char>,
    other: Seq<char>,
)
    ensures
        encrypt_pwd_spec(key, content, salt) == seq!['#', '0', '1', '#'] + b64u_encode_spec(
            hmac_sha512(key, encode_utf8(content) + encode_utf8(salt)),
        ),
        encrypt_pwd_spec(key, content, salt).take(4) == seq!['#', '0', '1', '#'],
        pwd_matches(key, content, salt, encrypt_pwd_spec(key, content, salt)),
        pwd_matches(key, content, salt, other) ==> other == encrypt_pwd_spec(key, content, salt),
{
    assert(encrypt_pwd_spec(key, content, salt).take(4) =~= seq!['#', '0', '1', '#']);
}

/// Encrypts the password with the default scheme, e.g. `#01#_encrypted_pwd_b64u_`.
pub fn encrypt_pwd(key: &[u8], enc_content: &EncryptContent) -> (res: Result<String, Error>)
    ensures
        res matches Ok(s) && s@ == encrypt_pwd_spec(key@, enc_content.content@, enc_content.salt@),
        res matches Ok(s) && s@ == seq!['#', '0', '1', '#'] + b64u_encode_spec(
            hmac_sha512(key@, encode_utf8(enc_content.content@) + encode_utf8(enc_content.salt@)),
        ),
        res matches Ok(s) ==> s@.len() == 90,
{
    let encrypted = match encrypt_into_b64u(key, enc_content) {
        Ok(e) => e,
        Err(e) => return Err(e),
    };
    Ok(with_scheme_tag(encrypted.as_str()))
}

/// The stored form of an encrypted password: `#01#` followed by it.
pub fn with_scheme_tag(encrypted: &str) -> (res: String)
    ensures
        res@ == seq!['#', '0', '1', '#'] + encrypted@,
{
    let mut res = String::new();
    push_char(&mut res, '#');
    push_char(&mut res, '0');
    push_char(&mut res, '1');
    push_char(&mut res, '#');
    res.append(encrypted);
    assert(res@ =~= seq!['#', '0', '1', '#'] + encrypted@);
    res
}

/// Accepts `pwd_ref` exactly when it is `pwd`, the stored form just
/// computed.
pub fn check_pwd(pwd: &str, pwd_ref: &str) -> (res: Result<(), Error>)
    ensures
        res is Ok <==> pwd@ == pwd_ref@,
        res matches Err(e) ==> e == Error::PwdNotMatching,
{
    if pwd.to_owned() == pwd_ref.to_owned() {
        Ok(())
    } else {
        Err(Error::PwdNotMatching)
    }
}

/// Accepts `pwd_ref` exactly when it is the stored form of the password.
pub fn validate_pwd(key: &[u8], enc_content: &EncryptContent, pwd_ref: &str) -> (res: Result<
    (),
    Error,
>)
    ensures
        res is Ok <==> pwd_matches(key@, enc_content.content@, enc_content.salt@, pwd_ref@),
        res is Ok <==> pwd_ref@ == seq!['#', '0', '1', '#'] + b64u_encode_spec(
            hmac_sha512(key@, encode_utf8(enc_content.content@) + encode_utf8(enc_content.salt@)),
        ),
        res matches Err(e) ==> e == Error::PwdNotMatching,
{
    let pwd = match encrypt_pwd(key, enc_content) {
        Ok(p) => p,
        Err(e) => return Err(e),
    };
    check_pwd(pwd.as_str(), pwd_ref)
}

} // verus!
