//! Percent-encoding of URIs.
//!
//! See <https://www.rfc-editor.org/rfc/rfc3986#section-2.1>
use crate::strings::string_from_utf8;
use vstd::prelude::*;
use vstd::utf8::{decode_utf8, encode_utf8, encode_utf8_decode_utf8, valid_utf8};

verus! {

/// The value of a hexadecimal digit, in either case.
pub open spec fn hex_value(b: u8) -> Option<nat> {
    if 48 <= b <= 57 {
        Some((b - 48) as nat)
    } else if 97 <= b <= 102 {
        Some((b - 87) as nat)
    } else if 65 <= b <= 70 {
        Some((b - 55) as nat)
    } else {
        None
    }
}

/// The bytes that a percent-encoded sequence of bytes stands for: each `%` followed by two
/// hexadecimal digits is the byte that they give, every other byte stands for itself. `None`
/// where a `%` is not followed by two hexadecimal digits.
pub open spec fn percent_decoded(bytes: Seq<u8>) -> Option<Seq<u8>>
    decreases bytes.len(),
{
    if bytes.len() == 0 {
        Some(Seq::empty())
    } else if bytes[0] == 37 {
        if bytes.len() >= 3 && hex_value(bytes[1]) is Some && hex_value(bytes[2]) is Some {
            match percent_decoded(bytes.skip(3)) {
                Some(rest) => Some(
                    seq![(16 * hex_value(bytes[1])->0 + hex_value(bytes[2])->0) as u8] + rest,
                ),
                None => None,
            }
        } else {
            None
        }
    } else {
        match percent_decoded(bytes.skip(1)) {
            Some(rest) => Some(seq![bytes[0]] + rest),
            None => None,
        }
    }
}

fn hex_digit(b: u8) -> (r: Option<u8>)
    ensures
        r matches Some(v) ==> hex_value(b) == Some(v as nat),
        r is None ==> hex_value(b) is None,
{
    if 48 <= b && b <= 57 {
        Some(b - 48)
    } else if 97 <= b && b <= 102 {
        Some(b - 87)
    } else if 65 <= b && b <= 70 {
        Some(b - 55)
    } else {
        None
    }
}

/// The text that a percent-encoded text stands for, or `None` where a `%` is not followed by
/// two hexadecimal digits or the decoded bytes are not UTF-8.
pub open spec fn percent_decoded_text(text: Seq<char>) -> Option<Seq<char>> {
    match percent_decoded(encode_utf8(text)) {
        Some(bytes) => if valid_utf8(bytes) {
            Some(decode_utf8(bytes))
        } else {
            None
        },
        None => None,
    }
}

/// Decodes a percent-encoded text. Where a `%` is not followed by two hexadecimal digits, or
/// the decoded bytes are not UTF-8, the text is handed back as the error.
pub fn decode_percent_encoded(value: &str) -> (r: Result<String, &str>)
    ensures
        match percent_decoded(encode_utf8(value@)) {
            Some(bytes) => if valid_utf8(bytes) {
                r matches Ok(s) && encode_utf8(s@) == bytes && s@ == decode_utf8(bytes)
            } else {
                r matches Err(v) && v@ == value@
            },
            None => r matches Err(v) && v@ == value@,
        },
{
    let bytes = value.as_bytes();
    let ghost all = bytes@;
    assert(all == encode_utf8(value@));
    let mut decoded: Vec<u8> = Vec::new();
    let mut i: usize = 0;
    assert(all.skip(0) =~= all);
    while i < bytes.len()
        invariant
            all == bytes@,
            all == encode_utf8(value@),
            i <= all.len(),
            match percent_decoded(all.skip(i as int)) {
                Some(rest) => percent_decoded(all) == Some(decoded@ + rest),
                None => percent_decoded(all) is None,
            },
        decreases bytes.len() - i,
    {
        let ghost tail = all.skip(i as int);
        let ghost before = decoded@;
        let b = bytes[i];
        assert(tail[0] == b);
        if b == 37 {
            if bytes.len() - i > 2 {
                assert(tail[1] == bytes@[i + 1]);
                assert(tail[2] == bytes@[i + 2]);
                match (hex_digit(bytes[i + 1]), hex_digit(bytes[i + 2])) {
                    (Some(high), Some(low)) => {
                        assert(tail.skip(3) =~= all.skip(i as int + 3));
                        let ghost next = seq![(16 * high + low) as u8];
                        decoded.push(16 * high + low);
                        proof {
                            match percent_decoded(all.skip(i as int + 3)) {
                                Some(rest) => {
                                    assert(decoded@ + rest =~= before + (next + rest));
                                },
                                None => {},
                            }
                        }
                        i = i + 3;
                    },
                    _ => {
                        assert(percent_decoded(tail) is None);
                        return Err(value);
                    },
                }
            } else {
                assert(percent_decoded(tail) is None);
                return Err(value);
            }
        } else {
            assert(tail.skip(1) =~= all.skip(i as int + 1));
            decoded.push(b);
            proof {
                match percent_decoded(all.skip(i as int + 1)) {
                    Some(rest) => {
                        assert(decoded@ + rest =~= before + (seq![b] + rest));
                    },
                    None => {},
                }
            }
            i = i + 1;
        }
    }
    assert(all.skip(i as int) =~= Seq::<u8>::empty());
    assert(decoded@ + Seq::<u8>::empty() =~= decoded@);
    match string_from_utf8(decoded) {
        Some(s) => {
            proof {
                encode_utf8_decode_utf8(s@);
            }
            Ok(s)
        },
        None => Err(value),
    }
}

} // verus!
