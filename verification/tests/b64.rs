use web_app::b64::{b64u_decode, b64u_encode, Error};

#[test]
fn b64u_encode_rfc4648_vectors() {
    assert_eq!(b64u_encode(b""), "");
    assert_eq!(b64u_encode(b"f"), "Zg");
    assert_eq!(b64u_encode(b"fo"), "Zm8");
    assert_eq!(b64u_encode(b"foo"), "Zm9v");
    assert_eq!(b64u_encode(b"foob"), "Zm9vYg");
    assert_eq!(b64u_encode(b"fooba"), "Zm9vYmE");
    assert_eq!(b64u_encode(b"foobar"), "Zm9vYmFy");
}

#[test]
fn b64u_encode_uses_url_safe_alphabet() {
    assert_eq!(b64u_encode(&[0xfb, 0xff]), "-_8");
    assert_eq!(b64u_encode(&[0xff, 0xff, 0xff]), "____");
    assert_eq!(b64u_encode(&[0x00, 0x10, 0x83]), "ABCD");
    assert_eq!(b64u_encode(&[0xd3, 0x4d, 0x34, 0x00]), "0000AA");
}

#[test]
fn b64u_decode_rfc4648_vectors() {
    assert_eq!(b64u_decode("").unwrap(), b"".to_vec());
    assert_eq!(b64u_decode("Zg").unwrap(), b"f".to_vec());
    assert_eq!(b64u_decode("Zm8").unwrap(), b"fo".to_vec());
    assert_eq!(b64u_decode("Zm9v").unwrap(), b"foo".to_vec());
    assert_eq!(b64u_decode("Zm9vYg").unwrap(), b"foob".to_vec());
    assert_eq!(b64u_decode("Zm9vYmE").unwrap(), b"fooba".to_vec());
    assert_eq!(b64u_decode("Zm9vYmFy").unwrap(), b"foobar".to_vec());
    assert_eq!(b64u_decode("-_8").unwrap(), vec![0xfb, 0xff]);
}

#[test]
fn b64u_decode_rejects_non_canonical_text() {
    // a lone character cannot hold a byte
    assert_eq!(b64u_decode("Z"), Err(Error::FailToB64uDecode));
    assert_eq!(b64u_decode("Zm9vY"), Err(Error::FailToB64uDecode));
    // padding and the standard alphabet's `+` and `/` are not accepted
    assert_eq!(b64u_decode("Zg=="), Err(Error::FailToB64uDecode));
    assert_eq!(b64u_decode("+/8"), Err(Error::FailToB64uDecode));
    // bits left over by a short group must be zero
    assert_eq!(b64u_decode("Zh"), Err(Error::FailToB64uDecode));
    assert_eq!(b64u_decode("Zm9"), Err(Error::FailToB64uDecode));
    // characters outside the alphabet
    assert_eq!(b64u_decode("Zm 9"), Err(Error::FailToB64uDecode));
    assert_eq!(b64u_decode("é"), Err(Error::FailToB64uDecode));
}

#[test]
fn b64u_decode_gives_back_what_was_encoded() {
    let mut bytes: Vec<u8> = Vec::new();
    for n in 0..70u32 {
        let encoded = b64u_encode(&bytes);
        assert_eq!(b64u_decode(&encoded).unwrap(), bytes);
        assert_eq!(b64u_encode(&b64u_decode(&encoded).unwrap()), encoded);
        bytes.push((n * 37 + 11) as u8);
    }
}

#[test]
fn b64u_encode_length() {
    let bytes = vec![7u8; 64];
    assert_eq!(b64u_encode(&bytes).len(), 86);
    let bytes = vec![7u8; 66];
    assert_eq!(b64u_encode(&bytes).len(), 88);
}
