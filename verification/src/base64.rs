//! Base64 text as it appears in metadata hash fields: standard alphabet,
//! padded, canonical (unused trailing bits must be zero). The decoder is
//! verified against the specification `b64_decode` below.

use crate::text::utf8_to_string;
use vstd::prelude::*;
use vstd::utf8::decode_utf8;
use vstd::utf8::valid_utf8;

verus! {

/// The six-bit value of one alphabet character, None outside the alphabet.
pub open spec fn b64_val(c: char) -> Option<u8> {
    let u = c as u32;
    if 65 <= u && u <= 90 {
        Some((u - 65) as u8)
    } else if 97 <= u && u <= 122 {
        Some((u - 71) as u8)
    } else if 48 <= u && u <= 57 {
        Some((u + 4) as u8)
    } else if c == '+' {
        Some(62u8)
    } else if c == '/' {
        Some(63u8)
    } else {
        None
    }
}

/// The bytes a base64 text denotes: full four-character groups, a final
/// group padded with one or two `=` once, and zero in every unused bit.
pub open spec fn b64_decode(s: Seq<char>) -> Option<Seq<u8>>
    decreases s.len(),
{
    if s.len() == 0 {
        Some(Seq::empty())
    } else if s.len() < 4 {
        None
    } else {
        match (b64_val(s[0]), b64_val(s[1])) {
            (Some(v0), Some(v1)) => if s.len() == 4 && s[3] == '=' {
                if s[2] == '=' {
                    if v1 % 16 == 0 {
                        Some(seq![(v0 * 4 + v1 / 16) as u8])
                    } else {
                        None
                    }
                } else {
                    match b64_val(s[2]) {
                        Some(v2) => if v2 % 4 == 0 {
                            Some(seq![(v0 * 4 + v1 / 16) as u8, ((v1 % 16) * 16 + v2 / 4) as u8])
                        } else {
                            None
                        },
                        None => None,
                    }
                }
            } else {
                match (b64_val(s[2]), b64_val(s[3])) {
                    (Some(v2), Some(v3)) => match b64_decode(s.skip(4)) {
                        Some(rest) => Some(
                            seq![
                                (v0 * 4 + v1 / 16) as u8,
                                ((v1 % 16) * 16 + v2 / 4) as u8,
                                ((v2 % 4) * 64 + v3) as u8,
                            ] + rest,
                        ),
                        None => None,
                    },
                    _ => None,
                }
            },
            _ => None,
        }
    }
}

/// The six-bit value of one character, exactly as `b64_val` gives it.
fn b64_val_exec(c: char) -> (r: Option<u8>)
    ensures
        r == b64_val(c),
{
    let u = c as u32;
    if 65 <= u && u <= 90 {
        Some((u - 65) as u8)
    } else if 97 <= u && u <= 122 {
        Some((u - 71) as u8)
    } else if 48 <= u && u <= 57 {
        Some((u + 4) as u8)
    } else if c == '+' {
        Some(62u8)
    } else if c == '/' {
        Some(63u8)
    } else {
        None
    }
}

/// Decode the suffix of `s` that starts at `i`.
fn b64_decode_from(s: &str, n: usize, i: usize) -> (r: Option<Vec<u8>>)
    requires
        n == s@.len(),
        i <= n,
    ensures
        match b64_decode(s@.skip(i as int)) {
            Some(b) => r matches Some(v) && v@ == b,
            None => r is None,
        },
    decreases n - i,
{
    let ghost suf = s@.skip(i as int);
    if i == n {
        proof {
            assert(suf =~= Seq::<char>::empty());
        }
        return Some(Vec::new());
    }
    if n - i < 4 {
        return None;
    }
    proof {
        assert(suf[0] == s@[i as int]);
        assert(suf[1] == s@[i + 1]);
        assert(suf[2] == s@[i + 2]);
        assert(suf[3] == s@[i + 3]);
        assert(suf.len() == n - i);
    }
    let v0 = match b64_val_exec(s.get_char(i)) {
        Some(v) => v,
        None => {
            return None;
        },
    };
    let v1 = match b64_val_exec(s.get_char(i + 1)) {
        Some(v) => v,
        None => {
            return None;
        },
    };
    let c2 = s.get_char(i + 2);
    let c3 = s.get_char(i + 3);
    if n - i == 4 && c3 == '=' {
        if c2 == '=' {
            if v1 % 16 == 0 {
                let mut out: Vec<u8> = Vec::new();
                out.push(v0 * 4 + v1 / 16);
                proof {
                    assert(out@ =~= seq![(v0 * 4 + v1 / 16) as u8]);
                }
                Some(out)
            } else {
                None
            }
        } else {
            match b64_val_exec(c2) {
                Some(v2) => {
                    if v2 % 4 == 0 {
                        let mut out: Vec<u8> = Vec::new();
                        out.push(v0 * 4 + v1 / 16);
                        out.push((v1 % 16) * 16 + v2 / 4);
                        proof {
                            assert(out@ =~= seq![
                                (v0 * 4 + v1 / 16) as u8,
                                ((v1 % 16) * 16 + v2 / 4) as u8,
                            ]);
                        }
                        Some(out)
                    } else {
                        None
                    }
                },
                None => None,
            }
        }
    } else {
        let v2 = match b64_val_exec(c2) {
            Some(v) => v,
            None => {
                return None;
            },
        };
        let v3 = match b64_val_exec(c3) {
            Some(v) => v,
            None => {
                return None;
            },
        };
        proof {
            assert(suf.skip(4) =~= s@.skip(i + 4));
        }
        match b64_decode_from(s, n, i + 4) {
            Some(mut rest) => {
                let mut out: Vec<u8> = Vec::new();
                out.push(v0 * 4 + v1 / 16);
                out.push((v1 % 16) * 16 + v2 / 4);
                out.push((v2 % 4) * 64 + v3);
                out.append(&mut rest);
                proof {
                    assert(out@ =~= seq![
                        (v0 * 4 + v1 / 16) as u8,
                        ((v1 % 16) * 16 + v2 / 4) as u8,
                        ((v2 % 4) * 64 + v3) as u8,
                    ] + b64_decode(suf.skip(4)).unwrap());
                }
                Some(out)
            },
            None => None,
        }
    }
}

/// Decode a whole base64 text to its bytes, rejected exactly where the
/// specification rejects it.
pub fn base64_decode(s: &str) -> (r: Option<Vec<u8>>)
    ensures
        match b64_decode(s@) {
            Some(b) => r matches Some(v) && v@ == b,
            None => r is None,
        },
{
    let n = s.unicode_len();
    proof {
        assert(s@.skip(0) =~= s@);
    }
    b64_decode_from(s, n, 0)
}

/// Decode a base64 text and read the bytes as UTF-8 plain text, as a
/// metadata hash field is carried on the wire.
pub fn base64_to_text(s: &str) -> (r: Option<String>)
    ensures
        match b64_decode(s@) {
            Some(b) => {
                &&& (valid_utf8(b) ==> (r matches Some(t) && t@ == decode_utf8(b)))
                &&& (!valid_utf8(b) ==> r is None)
            },
            None => r is None,
        },
{
    match base64_decode(s) {
        Some(bytes) => utf8_to_string(bytes),
        None => None,
    }
}

} // verus!
