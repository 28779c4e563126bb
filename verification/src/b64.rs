//! URL-safe Base64 without padding (RFC 4648, section 5).

use vstd::prelude::*;
use crate::text::push_char;

verus! {

/// The character of the URL-safe alphabet for a 6-bit value.
pub open spec fn b64u_digit(v: int) -> char {
    if v < 26 {
        (v + 65) as char
    } else if v < 52 {
        (v + 71) as char
    } else if v < 62 {
        (v - 4) as char
    } else if v == 62 {
        '-'
    } else {
        '_'
    }
}

/// The 6-bit value of a character of the URL-safe alphabet, or -1.
pub open spec fn b64u_value(c: char) -> int {
    let n = c as int;
    if 65 <= n <= 90 {
        n - 65
    } else if 97 <= n <= 122 {
        n - 71
    } else if 48 <= n <= 57 {
        n + 4
    } else if n == 45 {
        62
    } else if n == 95 {
        63
    } else {
        -1
    }
}

/// Each 6-bit value has its own character.
pub proof fn lemma_value_of_digit(v: int)
    requires
        0 <= v < 64,
    ensures
        b64u_value(b64u_digit(v)) == v,
{
}

/// Each character of the alphabet is the character of its value.
pub proof fn lemma_digit_of_value(c: char)
    requires
        b64u_value(c) >= 0,
    ensures
        b64u_digit(b64u_value(c)) == c,
{
}

fn digit(v: u8) -> (c: char)
    requires
        v < 64,
    ensures
        c == b64u_digit(v as int),
{
    let b: u8 = if v < 26 {
        v + 65
    } else if v < 52 {
        v + 71
    } else if v < 62 {
        v - 4
    } else if v == 62 {
        45
    } else {
        95
    };
    b as char
}

fn value(c: char) -> (r: Option<u8>)
    ensures
        match r {
            Some(v) => v == b64u_value(c) && v < 64,
            None => b64u_value(c) < 0,
        },
{
    let n = c as u32;
    if 65 <= n && n <= 90 {
        Some((n - 65) as u8)
    } else if 97 <= n && n <= 122 {
        Some((n - 71) as u8)
    } else if 48 <= n && n <= 57 {
        Some((n + 4) as u8)
    } else if n == 45 {
        Some(62)
    } else if n == 95 {
        Some(63)
    } else {
        None
    }
}


/// The URL-safe alphabet of RFC 4648, section 5: the values 0 to 25 are `A`
/// to `Z`, 26 to 51 are `a` to `z`, 52 to 61 are `0` to `9`, 62 is `-` and
/// 63 is `_`.
pub proof fn lemma_b64u_alphabet(v: int)
    requires
        0 <= v < 64,
    ensures
        v < 26 ==> b64u_digit(v) as int == 'A' as int + v,
        26 <= v < 52 ==> b64u_digit(v) as int == 'a' as int + (v - 26),
        52 <= v < 62 ==> b64u_digit(v) as int == '0' as int + (v - 52),
        v == 62 ==> b64u_digit(v) == '-',
        v == 63 ==> b64u_digit(v) == '_',
{
}

/// The characters that have a value are exactly those of the URL-safe
/// alphabet: letters, digits, `-` and `_`; the value of each is its place in
/// the alphabet.
pub proof fn lemma_b64u_value_of_char(c: char)
    ensures
        b64u_value(c) >= 0 <==> ('A' as int <= c as int <= 'Z' as int || 'a' as int <= c as int
            <= 'z' as int || '0' as int <= c as int <= '9' as int || c == '-' || c == '_'),
        'A' as int <= c as int <= 'Z' as int ==> b64u_value(c) == c as int - 'A' as int,
        'a' as int <= c as int <= 'z' as int ==> b64u_value(c) == c as int - 'a' as int + 26,
        '0' as int <= c as int <= '9' as int ==> b64u_value(c) == c as int - '0' as int + 52,
        c == '-' ==> b64u_value(c) == 62,
        c == '_' ==> b64u_value(c) == 63,
{
}


pub open spec fn encode_group(g: Seq<u8>) -> Seq<char> {
    let b0 = g[0] as int;
    let b1 = g[1] as int;
    let b2 = g[2] as int;
    if g.len() == 1 {
        seq![b64u_digit(b0 / 4), b64u_digit((b0 % 4) * 16)]
    } else if g.len() == 2 {
        seq![b64u_digit(b0 / 4), b64u_digit((b0 % 4) * 16 + b1 / 16), b64u_digit((b1 % 16) * 4)]
    } else if g.len() == 3 {
        seq![
            b64u_digit(b0 / 4),
            b64u_digit((b0 % 4) * 16 + b1 / 16),
            b64u_digit((b1 % 16) * 4 + b2 / 64),
            b64u_digit(b2 % 64),
        ]
    } else {
        seq![]
    }
}

/// URL-safe Base64 of `bytes`, without padding: each group of three bytes
/// becomes four characters, a final group of one or two bytes becomes two or
/// three characters.
pub open spec fn b64u_encode_spec(bytes: Seq<u8>) -> Seq<char>
    decreases bytes.len(),
{
    if bytes.len() <= 3 {
        encode_group(bytes)
    } else {
        encode_group(bytes.take(3)) + b64u_encode_spec(bytes.skip(3))
    }
}

/// The bytes that one group of two to four characters stands for, where the
/// group is a canonical encoding (every character in the alphabet, and the
/// bits that a short group leaves over are zero).
pub open spec fn decode_group(s: Seq<char>) -> Option<Seq<u8>> {
    if 2 <= s.len() <= 4 && (forall|i: int| 0 <= i < s.len() ==> b64u_value(#[trigger] s[i]) >= 0) {
        let v0 = b64u_value(s[0]);
        let v1 = b64u_value(s[1]);
        if s.len() == 2 {
            if v1 % 16 == 0 {
                Some(seq![(v0 * 4 + v1 / 16) as u8])
            } else {
                None
            }
        } else {
            let v2 = b64u_value(s[2]);
            if s.len() == 3 {
                if v2 % 4 == 0 {
                    Some(seq![(v0 * 4 + v1 / 16) as u8, ((v1 % 16) * 16 + v2 / 4) as u8])
                } else {
                    None
                }
            } else {
                let v3 = b64u_value(s[3]);
                Some(
                    seq![
                        (v0 * 4 + v1 / 16) as u8,
                        ((v1 % 16) * 16 + v2 / 4) as u8,
                        ((v2 % 4) * 64 + v3) as u8,
                    ],
                )
            }
        }
    } else {
        None
    }
}

/// Decoding of URL-safe Base64 without padding; `None` for any text that is
/// not the encoding of some bytes.
pub open spec fn b64u_decode_spec(s: Seq<char>) -> Option<Seq<u8>>
    decreases s.len(),
{
    if s.len() == 0 {
        Some(Seq::empty())
    } else if s.len() <= 4 {
        decode_group(s)
    } else {
        match decode_group(s.take(4)) {
            Some(head) => match b64u_decode_spec(s.skip(4)) {
                Some(tail) => Some(head + tail),
                None => None,
            },
            None => None,
        }
    }
}

#[verifier::spinoff_prover]
proof fn lemma_group_roundtrip(g: Seq<u8>)
    requires
        1 <= g.len() <= 3,
    ensures
        decode_group(encode_group(g)) == Some(g),
{
    let e = encode_group(g);
    let b0 = g[0] as int;
    lemma_value_of_digit(b0 / 4);
    if g.len() == 1 {
        lemma_value_of_digit((b0 % 4) * 16);
        assert(((b0 / 4) * 4 + ((b0 % 4) * 16) / 16) as u8 == g[0]);
        assert(decode_group(e).unwrap() =~= g);
    } else {
        let b1 = g[1] as int;
        lemma_value_of_digit((b0 % 4) * 16 + b1 / 16);
        if g.len() == 2 {
            lemma_value_of_digit((b1 % 16) * 4);
            assert(decode_group(e).unwrap() =~= g);
        } else {
            let b2 = g[2] as int;
            lemma_value_of_digit((b1 % 16) * 4 + b2 / 64);
            lemma_value_of_digit(b2 % 64);
            assert(decode_group(e).unwrap() =~= g);
        }
    }
}


#[verifier::spinoff_prover]
#[verifier::rlimit(40)]
proof fn lemma_group_canonical(s: Seq<char>)
    requires
        decode_group(s) is Some,
    ensures
        encode_group(decode_group(s).unwrap()) == s,
{
    let g = decode_group(s).unwrap();
    assert(b64u_value(s[0]) >= 0);
    assert(b64u_value(s[1]) >= 0);
    let v0 = b64u_value(s[0]);
    let v1 = b64u_value(s[1]);
    lemma_digit_of_value(s[0]);
    lemma_digit_of_value(s[1]);
    if s.len() == 2 {
        assert(encode_group(g) =~= s);
    } else {
        assert(b64u_value(s[2]) >= 0);
        lemma_digit_of_value(s[2]);
        if s.len() == 3 {
            assert(encode_group(g) =~= s);
        } else {
            assert(b64u_value(s[3]) >= 0);
            lemma_digit_of_value(s[3]);
            assert(encode_group(g) =~= s);
        }
    }
}

/// Decoding gives back the bytes that were encoded.
pub proof fn lemma_b64u_decode_encode(bytes: Seq<u8>)
    ensures
        b64u_decode_spec(b64u_encode_spec(bytes)) == Some(bytes),
    decreases bytes.len(),
{
    if bytes.len() == 0 {
        assert(b64u_encode_spec(bytes) =~= Seq::<char>::empty());
        assert(bytes =~= Seq::<u8>::empty());
    } else if bytes.len() <= 3 {
        lemma_group_roundtrip(bytes);
    } else {
        let head = bytes.take(3);
        let tail = bytes.skip(3);
        let e = b64u_encode_spec(bytes);
        lemma_group_roundtrip(head);
        lemma_b64u_decode_encode(tail);
        lemma_encode_len(tail);
        assert(e.take(4) =~= encode_group(head));
        assert(e.skip(4) =~= b64u_encode_spec(tail));
        assert(head + tail =~= bytes);
    }
}

/// Decoding succeeds only on canonical text: the bytes it gives back encode
/// to exactly the text that was decoded.
pub proof fn lemma_b64u_encode_decode(s: Seq<char>)
    requires
        b64u_decode_spec(s) is Some,
    ensures
        b64u_encode_spec(b64u_decode_spec(s).unwrap()) == s,
    decreases s.len(),
{
    if s.len() == 0 {
        assert(b64u_encode_spec(Seq::<u8>::empty()) =~= s);
    } else if s.len() <= 4 {
        lemma_group_canonical(s);
    } else {
        let head = decode_group(s.take(4)).unwrap();
        let tail = b64u_decode_spec(s.skip(4)).unwrap();
        lemma_group_canonical(s.take(4));
        lemma_b64u_encode_decode(s.skip(4));
        let b = head + tail;
        assert(head.len() == 3);
        assert(tail.len() > 0) by {
            if tail.len() == 0 {
                assert(b64u_encode_spec(tail) =~= Seq::<char>::empty());
            }
        }
        assert(b.take(3) =~= head);
        assert(b.skip(3) =~= tail);
        assert(s.take(4) + s.skip(4) =~= s);
    }
}

/// The length of the encoding: four characters per full group of three
/// bytes, and two or three for a final short group.
pub proof fn lemma_encode_len(bytes: Seq<u8>)
    ensures
        b64u_encode_spec(bytes).len() == (if bytes.len() % 3 == 0 {
            (bytes.len() / 3) * 4
        } else {
            (bytes.len() / 3) * 4 + bytes.len() % 3 + 1
        }),
    decreases bytes.len(),
{
    if bytes.len() > 3 {
        lemma_encode_len(bytes.skip(3));
    }
}


/// Every character of an encoding is in the URL-safe alphabet: there is no
/// `+`, `/` or `=` padding.
pub proof fn lemma_encode_alphabet(bytes: Seq<u8>)
    ensures
        forall|i: int|
            0 <= i < b64u_encode_spec(bytes).len() ==> b64u_value(
                #[trigger] b64u_encode_spec(bytes)[i],
            ) >= 0,
    decreases bytes.len(),
{
    let e = b64u_encode_spec(bytes);
    if bytes.len() > 3 {
        lemma_encode_alphabet(bytes.skip(3));
    }
    assert forall|i: int| 0 <= i < e.len() implies b64u_value(#[trigger] e[i]) >= 0 by {
        let g = if bytes.len() <= 3 { bytes } else { bytes.take(3) };
        let b0 = g[0] as int;
        let b1 = g[1] as int;
        let b2 = g[2] as int;
        if i < encode_group(g).len() {
            if i == 0 {
                lemma_value_of_digit(b0 / 4);
            } else if i == 1 {
                if g.len() == 1 {
                    lemma_value_of_digit((b0 % 4) * 16);
                } else {
                    lemma_value_of_digit((b0 % 4) * 16 + b1 / 16);
                }
            } else if i == 2 {
                if g.len() == 2 {
                    lemma_value_of_digit((b1 % 16) * 4);
                } else {
                    lemma_value_of_digit((b1 % 16) * 4 + b2 / 64);
                }
            } else {
                lemma_value_of_digit(b2 % 64);
            }
        } else {
            let tail = b64u_encode_spec(bytes.skip(3));
            assert(e == encode_group(g) + tail);
            assert(e[i] == tail[i - 4]);
        }
    }
}

proof fn lemma_group_bits(g: Seq<u8>)
    requires
        g.len() == 3,
    ensures
        encode_group(g).len() == 4,
        b64u_value(encode_group(g)[0]) * 262144 + b64u_value(encode_group(g)[1]) * 4096
            + b64u_value(encode_group(g)[2]) * 64 + b64u_value(encode_group(g)[3]) == g[0] as int
            * 65536 + g[1] as int * 256 + g[2] as int,
{
    let b0 = g[0] as int;
    let b1 = g[1] as int;
    let b2 = g[2] as int;
    lemma_value_of_digit(b0 / 4);
    lemma_value_of_digit((b0 % 4) * 16 + b1 / 16);
    lemma_value_of_digit((b1 % 16) * 4 + b2 / 64);
    lemma_value_of_digit(b2 % 64);
}

/// Each full group of three bytes is encoded by four characters whose 6-bit
/// values, read most significant first, are the 24 bits of the three bytes.
pub proof fn lemma_b64u_encode_bits(bytes: Seq<u8>, i: int)
    requires
        0 <= i,
        3 * i + 3 <= bytes.len(),
    ensures
        4 * i + 3 < b64u_encode_spec(bytes).len(),
        b64u_value(b64u_encode_spec(bytes)[4 * i]) * 262144 + b64u_value(
            b64u_encode_spec(bytes)[4 * i + 1],
        ) * 4096 + b64u_value(b64u_encode_spec(bytes)[4 * i + 2]) * 64 + b64u_value(
            b64u_encode_spec(bytes)[4 * i + 3],
        ) == bytes[3 * i] as int * 65536 + bytes[3 * i + 1] as int * 256 + bytes[3 * i + 2] as int,
    decreases i,
{
    lemma_encode_len(bytes);
    let e = b64u_encode_spec(bytes);
    let head = bytes.take(3);
    lemma_group_bits(head);
    if bytes.len() == 3 {
        assert(head =~= bytes);
    } else if i == 0 {
        assert(e == encode_group(head) + b64u_encode_spec(bytes.skip(3)));
    } else {
        let tail = bytes.skip(3);
        lemma_b64u_encode_bits(tail, i - 1);
        let et = b64u_encode_spec(tail);
        assert(e == encode_group(head) + et);
        assert(e[4 * i] == et[4 * (i - 1)]);
        assert(e[4 * i + 1] == et[4 * (i - 1) + 1]);
        assert(e[4 * i + 2] == et[4 * (i - 1) + 2]);
        assert(e[4 * i + 3] == et[4 * (i - 1) + 3]);
        assert(bytes[3 * i] == tail[3 * (i - 1)]);
        assert(bytes[3 * i + 1] == tail[3 * (i - 1) + 1]);
        assert(bytes[3 * i + 2] == tail[3 * (i - 1) + 2]);
    }
}

/// A final group of one byte is encoded by two characters holding its 8 bits
/// followed by four zero bits; a final group of two bytes by three
/// characters holding their 16 bits followed by two zero bits.
pub proof fn lemma_b64u_encode_tail_bits(bytes: Seq<u8>)
    ensures
        bytes.len() % 3 == 1 ==> ({
            let q = (bytes.len() / 3) as int;
            let e = b64u_encode_spec(bytes);
            e.len() == 4 * q + 2 && b64u_value(e[4 * q]) * 64 + b64u_value(e[4 * q + 1])
                == bytes[3 * q] as int * 16
        }),
        bytes.len() % 3 == 2 ==> ({
            let q = (bytes.len() / 3) as int;
            let e = b64u_encode_spec(bytes);
            e.len() == 4 * q + 3 && b64u_value(e[4 * q]) * 4096 + b64u_value(e[4 * q + 1]) * 64
                + b64u_value(e[4 * q + 2]) == (bytes[3 * q] as int * 256 + bytes[3 * q + 1] as int)
                * 4
        }),
    decreases bytes.len(),
{
    lemma_encode_len(bytes);
    let e = b64u_encode_spec(bytes);
    if bytes.len() <= 3 {
        let b0 = bytes[0] as int;
        let b1 = bytes[1] as int;
        if bytes.len() == 1 {
            lemma_value_of_digit(b0 / 4);
            lemma_value_of_digit((b0 % 4) * 16);
        } else if bytes.len() == 2 {
            lemma_value_of_digit(b0 / 4);
            lemma_value_of_digit((b0 % 4) * 16 + b1 / 16);
            lemma_value_of_digit((b1 % 16) * 4);
        }
    } else {
        let tail = bytes.skip(3);
        lemma_b64u_encode_tail_bits(tail);
        let et = b64u_encode_spec(tail);
        let q = (bytes.len() / 3) as int;
        assert(e == encode_group(bytes.take(3)) + et);
        assert(encode_group(bytes.take(3)).len() == 4);
        assert(tail.len() / 3 == q - 1);
        if bytes.len() % 3 != 0 {
            assert(e[4 * q] == et[4 * (q - 1)]);
            assert(e[4 * q + 1] == et[4 * (q - 1) + 1]);
            assert(bytes[3 * q] == tail[3 * (q - 1)]);
            if bytes.len() % 3 == 2 {
                assert(e[4 * q + 2] == et[4 * (q - 1) + 2]);
                assert(bytes[3 * q + 1] == tail[3 * (q - 1) + 1]);
            }
        }
    }
}

proof fn lemma_encode_step(bytes: Seq<u8>)
    requires
        bytes.len() >= 3,
    ensures
        b64u_encode_spec(bytes) == encode_group(bytes.take(3)) + b64u_encode_spec(bytes.skip(3)),
{
    if bytes.len() == 3 {
        assert(bytes.take(3) =~= bytes);
        assert(b64u_encode_spec(bytes.skip(3)) =~= Seq::<char>::empty());
        assert(encode_group(bytes) + Seq::<char>::empty() =~= encode_group(bytes));
    }
}

/// Encodes bytes as URL-safe Base64 without padding.
pub fn b64u_encode(content: &[u8]) -> (res: String)
    ensures
        res@ == b64u_encode_spec(content@),
{
    let n = content.len();
    let mut res = String::new();
    let mut i: usize = 0;
    assert(content@.skip(0) =~= content@);
    while n - i >= 3
        invariant
            i <= n,
            n == content@.len(),
            b64u_encode_spec(content@) == res@ + b64u_encode_spec(content@.skip(i as int)),
        decreases n - i,
    {
        let b0 = content[i];
        let b1 = content[i + 1];
        let b2 = content[i + 2];
        let ghost rest = content@.skip(i as int);
        let ghost before = res@;
        proof {
            lemma_encode_step(rest);
            assert(rest.take(3) =~= seq![b0, b1, b2]);
            assert(rest.skip(3) =~= content@.skip(i + 3));
        }
        push_char(&mut res, digit(b0 / 4));
        push_char(&mut res, digit((b0 % 4) * 16 + b1 / 16));
        push_char(&mut res, digit((b1 % 16) * 4 + b2 / 64));
        push_char(&mut res, digit(b2 % 64));
        assert(res@ =~= before + encode_group(seq![b0, b1, b2]));
        i = i + 3;
    }
    let ghost before = res@;
    let ghost rest = content@.skip(i as int);
    if n - i == 1 {
        let b0 = content[i];
        push_char(&mut res, digit(b0 / 4));
        push_char(&mut res, digit((b0 % 4) * 16));
        assert(rest =~= seq![b0]);
        assert(res@ =~= before + encode_group(rest));
    } else if n - i == 2 {
        let b0 = content[i];
        let b1 = content[i + 1];
        push_char(&mut res, digit(b0 / 4));
        push_char(&mut res, digit((b0 % 4) * 16 + b1 / 16));
        push_char(&mut res, digit((b1 % 16) * 4));
        assert(rest =~= seq![b0, b1]);
        assert(res@ =~= before + encode_group(rest));
    } else {
        assert(res@ =~= before + encode_group(rest));
    }
    res
}


/// The error of a text that is not URL-safe Base64.
#[derive(Debug, PartialEq, Eq, Structural)]
pub enum Error {
    FailToB64uDecode,
}

fn str_chars(s: &str) -> (res: Vec<char>)
    ensures
        res@ == s@,
{
    broadcast use vstd::string::axiom_spec_iter;

    let mut res: Vec<char> = Vec::new();
    for c in it: s.chars()
        invariant
            it.seq() == s@,
            res@ == s@.take(it.index() as int),
    {
        res.push(c);
        assert(res@ =~= s@.take(it.index() + 1));
    }
    assert(res@ =~= s@);
    res
}


/// Decodes the group of `len` characters that starts at `start`, appending
/// its bytes to `out`; `false` where the group is not canonical.
fn decode_chunk(cs: &Vec<char>, start: usize, len: usize, out: &mut Vec<u8>) -> (ok: bool)
    requires
        2 <= len <= 4,
        start + len <= cs@.len(),
    ensures
        ok == decode_group(cs@.subrange(start as int, start + len)) is Some,
        ok ==> final(out)@ == old(out)@ + decode_group(
            cs@.subrange(start as int, start + len),
        ).unwrap(),
{
    let ghost g = cs@.subrange(start as int, start + len);
    let mut vals: Vec<u8> = Vec::new();
    let mut k: usize = 0;
    while k < len
        invariant
            k <= len,
            2 <= len <= 4,
            start + len <= cs.len(),
            g == cs@.subrange(start as int, start + len),
            vals@.len() == k,
            forall|j: int| 0 <= j < k ==> vals@[j] == b64u_value(#[trigger] g[j]) && vals@[j] < 64,
        decreases len - k,
    {
        match value(cs[start + k]) {
            Some(v) => {
                vals.push(v);
            },
            None => {
                assert(b64u_value(g[k as int]) < 0);
                return false;
            },
        }
        k = k + 1;
    }
    assert(forall|i: int| 0 <= i < g.len() ==> b64u_value(#[trigger] g[i]) >= 0) by {
        assert forall|i: int| 0 <= i < g.len() implies b64u_value(#[trigger] g[i]) >= 0 by {
            assert(vals@[i] == b64u_value(g[i]));
        }
    }
    let v0 = vals[0];
    let v1 = vals[1];
    if len == 2 {
        if v1 % 16 != 0 {
            return false;
        }
        out.push(v0 * 4 + v1 / 16);
    } else {
        let v2 = vals[2];
        if len == 3 {
            if v2 % 4 != 0 {
                return false;
            }
            out.push(v0 * 4 + v1 / 16);
            out.push((v1 % 16) * 16 + v2 / 4);
        } else {
            let v3 = vals[3];
            out.push(v0 * 4 + v1 / 16);
            out.push((v1 % 16) * 16 + v2 / 4);
            out.push((v2 % 4) * 64 + v3);
        }
    }
    assert(final(out)@ =~= old(out)@ + decode_group(g).unwrap());
    true
}

/// Decodes URL-safe Base64 without padding; fails on any text that is not
/// the encoding of some bytes.
pub fn b64u_decode(b64u: &str) -> (res: Result<Vec<u8>, Error>)
    ensures
        match res {
            Ok(bytes) => b64u_decode_spec(b64u@) == Some(bytes@),
            Err(e) => b64u_decode_spec(b64u@) is None && e == Error::FailToB64uDecode,
        },
{
    let cs = str_chars(b64u);
    let n = cs.len();
    let mut out: Vec<u8> = Vec::new();
    let mut i: usize = 0;
    assert(cs@.skip(0) =~= cs@);
    while n - i > 4
        invariant
            i <= n,
            n == cs@.len(),
            cs@ == b64u@,
            b64u_decode_spec(b64u@) == match b64u_decode_spec(cs@.skip(i as int)) {
                Some(t) => Some(out@ + t),
                None => None::<Seq<u8>>,
            },
        decreases n - i,
    {
        let ghost rest = cs@.skip(i as int);
        let ghost before = out@;
        assert(rest.take(4) =~= cs@.subrange(i as int, i + 4));
        assert(rest.skip(4) =~= cs@.skip(i + 4));
        if !decode_chunk(&cs, i, 4, &mut out) {
            return Err(Error::FailToB64uDecode);
        }
        proof {
            let head = decode_group(rest.take(4)).unwrap();
            assert(out@ == before + head);
            match b64u_decode_spec(rest.skip(4)) {
                Some(t) => {
                    assert(before + (head + t) =~= out@ + t);
                },
                None => {},
            }
        }
        i = i + 4;
    }
    let ghost rest = cs@.skip(i as int);
    let ghost before = out@;
    if n - i == 0 {
        assert(rest.len() == 0);
        assert(before + Seq::<u8>::empty() =~= before);
        return Ok(out);
    }
    if n - i == 1 {
        return Err(Error::FailToB64uDecode);
    }
    assert(rest =~= cs@.subrange(i as int, n as int));
    if !decode_chunk(&cs, i, n - i, &mut out) {
        return Err(Error::FailToB64uDecode);
    }
    Ok(out)
}

} // verus!
