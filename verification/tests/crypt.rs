use web_app::crypt::pwd::{check_pwd, encrypt_pwd, validate_pwd, with_scheme_tag};
use web_app::crypt::{encrypt_into_b64u, EncryptContent, Error};

fn rfc4231_case_2() -> EncryptContent {
    EncryptContent { content: "what do ya want ".to_string(), salt: "for nothing?".to_string() }
}

#[test]
fn encrypt_into_b64u_is_hmac_sha512_in_b64u() {
    // RFC 4231, test case 2: HMAC-SHA-512 with key "Jefe"
    let res = encrypt_into_b64u(b"Jefe", &rfc4231_case_2()).unwrap();
    assert_eq!(
        res,
        "Fkt6e_z4GeLjlfvnO1bgo4e9ZCIugx_WECcM1-olBVSXWL91wFqZSm0DT2X48Ob9yuqxo01Ka0tjbgcKOLznNw"
    );
}

#[test]
fn encrypt_pwd_prefixes_the_scheme() {
    let res = encrypt_pwd(b"Jefe", &rfc4231_case_2()).unwrap();
    assert_eq!(
        res,
        "#01#Fkt6e_z4GeLjlfvnO1bgo4e9ZCIugx_WECcM1-olBVSXWL91wFqZSm0DT2X48Ob9yuqxo01Ka0tjbgcKOLznNw"
    );
    assert_eq!(res.len(), 90);
}

#[test]
fn validate_pwd_accepts_the_stored_form() {
    let enc = EncryptContent { content: "welcome".to_string(), salt: "salt-1".to_string() };
    let stored = encrypt_pwd(b"some key", &enc).unwrap();
    assert_eq!(validate_pwd(b"some key", &enc, &stored), Ok(()));
}

#[test]
fn validate_pwd_rejects_anything_else() {
    let enc = EncryptContent { content: "welcome".to_string(), salt: "salt-1".to_string() };
    let stored = encrypt_pwd(b"some key", &enc).unwrap();
    assert_eq!(validate_pwd(b"some key", &enc, &stored[4..]), Err(Error::PwdNotMatching));
    assert_eq!(validate_pwd(b"other key", &enc, &stored), Err(Error::PwdNotMatching));
    let wrong = EncryptContent { content: "welcome!".to_string(), salt: "salt-1".to_string() };
    assert_eq!(validate_pwd(b"some key", &wrong, &stored), Err(Error::PwdNotMatching));
}

#[test]
fn stored_form_and_its_check() {
    assert_eq!(with_scheme_tag("abc"), "#01#abc");
    assert_eq!(with_scheme_tag(""), "#01#");
    assert_eq!(check_pwd("#01#abc", "#01#abc"), Ok(()));
    assert_eq!(check_pwd("#01#abc", "#01#abd"), Err(Error::PwdNotMatching));
}
