//! Decoding of the byte-string paths the host hands across the boundary.
//! The boundary has no error channel, so a path whose bytes are not valid
//! UTF-8 is downgraded to the empty string rather than rejected.

use vstd::prelude::*;

verus! {

use vstd::utf8::decode_utf8;
use vstd::utf8::encode_utf8;
use vstd::utf8::encode_utf8_decode_utf8;
use vstd::utf8::encode_utf8_valid_utf8;
use vstd::utf8::valid_utf8;

/// The text a host byte string stands for: its UTF-8 decoding when the bytes
/// are valid UTF-8, and the empty text otherwise.
pub open spec fn decoded_or_empty(bytes: Seq<u8>) -> Seq<char> {
    if valid_utf8(bytes) {
        decode_utf8(bytes)
    } else {
        Seq::<char>::empty()
    }
}

/// Whether the bytes form a valid UTF-8 encoding: every scalar is well
/// formed, not overlong, and outside the surrogate range.
pub fn is_utf8(bytes: &[u8]) -> (valid: bool)
    ensures
        valid == valid_utf8(bytes@),
{
    let n = bytes.len();
    let mut i: usize = 0;
    proof {
        assert(bytes@.subrange(0, n as int) =~= bytes@);
    }
    while i < n
        invariant
            i <= n,
            n == bytes@.len(),
            valid_utf8(bytes@) == valid_utf8(bytes@.subrange(i as int, n as int)),
        decreases n - i,
    {
        let ghost rest = bytes@.subrange(i as int, n as int);
        let b0 = bytes[i];
        proof {
            assert(rest[0] == b0);
        }
        let width: usize;
        let codepoint: u32;
        if b0 < 0x80 {
            width = 1;
            codepoint = (b0 & 0x7f) as u32;
            assert(codepoint <= 0x7f) by (bit_vector)
                requires
                    codepoint == (b0 & 0x7f) as u32,
            ;
        } else if b0 < 0xc0 {
            // a continuation byte cannot lead a scalar
            proof {
                assert(!vstd::utf8::valid_leading_and_continuation_bytes_first_codepoint(rest));
            }
            return false;
        } else if b0 <= 0xdf {
            if n - i < 2 {
                proof {
                    assert(!vstd::utf8::valid_leading_and_continuation_bytes_first_codepoint(
                        rest,
                    ));
                }
                return false;
            }
            let b1 = bytes[i + 1];
            proof {
                assert(rest[1] == b1);
            }
            if !(0x80 <= b1 && b1 <= 0xbf) {
                proof {
                    assert(!vstd::utf8::valid_leading_and_continuation_bytes_first_codepoint(
                        rest,
                    ));
                }
                return false;
            }
            width = 2;
            codepoint = (((b0 & 0x1f) as u32) << 6u32) | ((b1 & 0x3f) as u32);
            assert(codepoint <= 0x7ff) by (bit_vector)
                requires
                    codepoint == (((b0 & 0x1f) as u32) << 6u32) | ((b1 & 0x3f) as u32),
            ;
            if codepoint < 0x80 {
                proof {
                    assert(!vstd::utf8::valid_first_scalar(rest));
                }
                return false;
            }
        } else if b0 <= 0xef {
            if n - i < 3 {
                proof {
                    assert(!vstd::utf8::valid_leading_and_continuation_bytes_first_codepoint(
                        rest,
                    ));
                }
                return false;
            }
            let b1 = bytes[i + 1];
            let b2 = bytes[i + 2];
            proof {
                assert(rest[1] == b1);
                assert(rest[2] == b2);
            }
            if !(0x80 <= b1 && b1 <= 0xbf) || !(0x80 <= b2 && b2 <= 0xbf) {
                proof {
                    assert(!vstd::utf8::valid_leading_and_continuation_bytes_first_codepoint(
                        rest,
                    ));
                }
                return false;
            }
            width = 3;
            codepoint = (((b0 & 0x0f) as u32) << 12u32) | (((b1 & 0x3f) as u32) << 6u32) | ((b2
                & 0x3f) as u32);
            if codepoint < 0x800 || (0xd800 <= codepoint && codepoint <= 0xdfff) {
                proof {
                    assert(!vstd::utf8::valid_first_scalar(rest));
                }
                return false;
            }
        } else if b0 <= 0xf7 {
            if n - i < 4 {
                proof {
                    assert(!vstd::utf8::valid_leading_and_continuation_bytes_first_codepoint(
                        rest,
                    ));
                }
                return false;
            }
            let b1 = bytes[i + 1];
            let b2 = bytes[i + 2];
            let b3 = bytes[i + 3];
            proof {
                assert(rest[1] == b1);
                assert(rest[2] == b2);
                assert(rest[3] == b3);
            }
            if !(0x80 <= b1 && b1 <= 0xbf) || !(0x80 <= b2 && b2 <= 0xbf) || !(0x80 <= b3 && b3
                <= 0xbf) {
                proof {
                    assert(!vstd::utf8::valid_leading_and_continuation_bytes_first_codepoint(
                        rest,
                    ));
                }
                return false;
            }
            width = 4;
            codepoint = (((b0 & 0x07) as u32) << 18u32) | (((b1 & 0x3f) as u32) << 12u32) | (((b2
                & 0x3f) as u32) << 6u32) | ((b3 & 0x3f) as u32);
            if codepoint < 0x10000 || codepoint > 0x10ffff {
                proof {
                    assert(!vstd::utf8::valid_first_scalar(rest));
                }
                return false;
            }
        } else {
            // 0xf8 through 0xff lead no UTF-8 scalar at all
            proof {
                assert(!vstd::utf8::valid_leading_and_continuation_bytes_first_codepoint(rest));
            }
            return false;
        }
        proof {
            assert(vstd::utf8::valid_leading_and_continuation_bytes_first_codepoint(rest));
            assert(codepoint == vstd::utf8::decode_first_codepoint(rest));
            assert(width == vstd::utf8::length_of_first_codepoint(rest));
            assert(vstd::utf8::valid_first_scalar(rest));
            assert(vstd::utf8::pop_first_scalar(rest) =~= bytes@.subrange(
                i + width,
                n as int,
            ));
        }
        i = i + width;
    }
    proof {
        assert(bytes@.subrange(n as int, n as int) =~= Seq::<u8>::empty());
    }
    true
}

/// The text a host byte string stands for, as an owned string: the UTF-8
/// decoding of the bytes, or the empty string when they are not valid UTF-8.
pub fn decode_path(bytes: &[u8]) -> (text: String)
    ensures
        text@ == decoded_or_empty(bytes@),
{
    if is_utf8(bytes) {
        let text = string_from_valid_utf8(bytes);
        proof {
            encode_utf8_decode_utf8(text@);
        }
        text
    } else {
        String::new()
    }
}

/// Law: decoding the UTF-8 encoding of any text yields exactly that text
/// back, so paths that cross the boundary as valid UTF-8 round-trip.
pub proof fn lemma_decode_round_trip(text: Seq<char>)
    ensures
        valid_utf8(encode_utf8(text)),
        decoded_or_empty(encode_utf8(text)) == text,
{
    encode_utf8_valid_utf8(text);
    encode_utf8_decode_utf8(text);
}

/// Relies on core::str::from_utf8: bytes that form a valid UTF-8 encoding
/// are exactly the encoding of the returned text.
#[verifier::external_body]
fn string_from_valid_utf8(bytes: &[u8]) -> (text: String)
    requires
        valid_utf8(bytes@),
    ensures
        encode_utf8(text@) == bytes@,
{
    match core::str::from_utf8(bytes) {
        Ok(s) => s.to_owned(),
        Err(_) => String::new(),
    }
}

} // verus!
