use uuid::Uuid;
use web_app::b64::b64u_decode;
use web_app::pwd::scheme::scheme_01::{check_hash, hash, Scheme01};
use web_app::pwd::scheme::Error;
use web_app::pwd::{hash_pwd, ContentToHash};

fn fx_key() -> Vec<u8> {
    b64u_decode("CKUGFOD9_2Qf6Pn3ZFRYgPYb8ht4vKqEG9PGMXTB7497bT0367DjoaD6ydFnEVaIRda0kKeBZVCT5Hb62m2sCA")
        .unwrap()
}

fn fx_to_hash() -> ContentToHash {
    let fx_salt = Uuid::parse_str("f05e8961-d6ad-4086-9e78-a6de065e5453").unwrap();
    ContentToHash { content: "hello world".to_string(), salt: *fx_salt.as_bytes() }
}

#[test]
fn test_scheme_01_hash_into_b64u_known_key() {
    let key = fx_key();
    assert_eq!(key.len(), 64);
    let res = hash(&key, &fx_to_hash()).unwrap();
    assert_eq!(
        res,
        "qO9A90161DoewhNXFwVcnAaljRIVnajvd5zsVDrySCwxpoLwVCACzaz-8Ev2ZpI8RackUTLBVqFI6H5oMe-OIg"
    );
    assert_eq!(res.len(), 86);
}

#[test]
fn scheme_01_method_hash_is_the_module_hash() {
    let key = fx_key();
    let to_hash = fx_to_hash();
    assert_eq!(Scheme01.hash(&key, &to_hash).unwrap(), hash(&key, &to_hash).unwrap());
}

#[test]
fn scheme_01_hash_depends_on_key_content_and_salt() {
    let key = fx_key();
    let base = hash(&key, &fx_to_hash()).unwrap();
    let other_key = hash(b"another key", &fx_to_hash()).unwrap();
    assert_ne!(base, other_key);
    let mut to_hash = fx_to_hash();
    to_hash.content = "hello world!".to_string();
    assert_ne!(base, hash(&key, &to_hash).unwrap());
    let mut to_hash = fx_to_hash();
    to_hash.salt[0] ^= 1;
    assert_ne!(base, hash(&key, &to_hash).unwrap());
}

#[test]
fn scheme_01_hash_takes_any_key_length() {
    let to_hash = fx_to_hash();
    assert_eq!(hash(b"", &to_hash).unwrap().len(), 86);
    assert_eq!(hash(&[1u8; 300], &to_hash).unwrap().len(), 86);
}

#[test]
fn scheme_01_validate_accepts_its_hash() {
    let key = fx_key();
    let to_hash = fx_to_hash();
    let stored = Scheme01.hash(&key, &to_hash).unwrap();
    assert_eq!(Scheme01.validate(&key, &to_hash, &stored), Ok(()));
}

#[test]
fn scheme_01_validate_rejects_other_text() {
    let key = fx_key();
    let to_hash = fx_to_hash();
    let stored = Scheme01.hash(&key, &to_hash).unwrap();
    assert_eq!(Scheme01.validate(&key, &to_hash, "welcome"), Err(Error::PwdValidate));
    assert_eq!(Scheme01.validate(&key, &to_hash, &stored[1..]), Err(Error::PwdValidate));
    assert_eq!(Scheme01.validate(b"other", &to_hash, &stored), Err(Error::PwdValidate));
}

#[test]
fn check_hash_compares_exactly() {
    assert_eq!(check_hash("abc", "abc"), Ok(()));
    assert_eq!(check_hash("abc", "ab"), Err(Error::PwdValidate));
    assert_eq!(check_hash("", ""), Ok(()));
}

#[test]
fn hash_pwd_is_the_scheme_01_stored_form() {
    let key = fx_key();
    let stored = hash_pwd(&key, &fx_to_hash()).unwrap();
    assert_eq!(
        stored,
        "#01#qO9A90161DoewhNXFwVcnAaljRIVnajvd5zsVDrySCwxpoLwVCACzaz-8Ev2ZpI8RackUTLBVqFI6H5oMe-OIg"
    );
    assert_eq!(stored.len(), 90);
}
