//! Deciding whether a byte string is well-formed UTF-8.
//!
//! Well-formedness is `vstd::utf8::valid_utf8`: the bytes split into
//! encodings of Unicode scalar values, each in its shortest form and none of
//! them a surrogate.

use vstd::prelude::*;
use vstd::utf8::*;

verus! {

/// The bytes of `bytes` from index `at` on.
spec fn tail(bytes: Seq<u8>, at: int) -> Seq<u8> {
    bytes.subrange(at, bytes.len() as int)
}

/// The number of bytes that the scalar starting at index `at` takes, or 0
/// where no well-formed scalar starts there.
spec fn scalar_width_at(bytes: Seq<u8>, at: int) -> int {
    if valid_first_scalar(tail(bytes, at)) {
        length_of_first_scalar(tail(bytes, at))
    } else {
        0
    }
}

/// Tells whether `byte` has the form of a continuation byte.
fn is_continuation(byte: u8) -> (yes: bool)
    ensures
        yes == is_continuation_byte(byte),
{
    0x80 <= byte && byte <= 0xbf
}

/// The value that a leading byte and one continuation byte carry: 11 bits.
fn codepoint_2(b0: u8, b1: u8) -> (cp: u32)
    ensures
        cp == codepoint_width_2(b0, b1),
        cp <= 0x7ff,
{
    let cp: u32 = (((b0 & 0x1f) as u32) << 6) | ((b1 & 0x3f) as u32);
    assert((((b0 & 0x1f) as u32) << 6) | ((b1 & 0x3f) as u32) <= 0x7ff) by (bit_vector);
    cp
}

/// The value that a leading byte and two continuation bytes carry.
fn codepoint_3(b0: u8, b1: u8, b2: u8) -> (cp: u32)
    ensures
        cp == codepoint_width_3(b0, b1, b2),
{
    (((b0 & 0x0f) as u32) << 12) | (((b1 & 0x3f) as u32) << 6) | ((b2 & 0x3f) as u32)
}

/// The value that a leading byte and three continuation bytes carry.
fn codepoint_4(b0: u8, b1: u8, b2: u8, b3: u8) -> (cp: u32)
    ensures
        cp == codepoint_width_4(b0, b1, b2, b3),
{
    (((b0 & 0x07) as u32) << 18) | (((b1 & 0x3f) as u32) << 12) | (((b2 & 0x3f) as u32) << 6) | ((b3
        & 0x3f) as u32)
}

/// Measures the scalar that starts at index `at`: 1 to 4 for a well-formed
/// encoding, 0 for anything else.
fn scalar_width(bytes: &[u8], at: usize) -> (width: usize)
    requires
        at < bytes@.len(),
    ensures
        width == scalar_width_at(bytes@, at as int),
        width <= 4,
        at + width <= bytes@.len(),
{
    let avail: usize = bytes.len() - at;
    let b0: u8 = bytes[at];
    if b0 <= 0x7f {
        1
    } else if 0xc0 <= b0 && b0 <= 0xdf {
        if avail < 2 || !is_continuation(bytes[at + 1]) {
            return 0;
        }
        let cp: u32 = codepoint_2(b0, bytes[at + 1]);
        if 0x80 <= cp {
            2
        } else {
            0
        }
    } else if 0xe0 <= b0 && b0 <= 0xef {
        if avail < 3 || !is_continuation(bytes[at + 1]) || !is_continuation(bytes[at + 2]) {
            return 0;
        }
        let cp: u32 = codepoint_3(b0, bytes[at + 1], bytes[at + 2]);
        if 0x800 <= cp && !(0xd800 <= cp && cp <= 0xdfff) {
            3
        } else {
            0
        }
    } else if 0xf0 <= b0 && b0 <= 0xf7 {
        if avail < 4 || !is_continuation(bytes[at + 1]) || !is_continuation(bytes[at + 2])
            || !is_continuation(bytes[at + 3]) {
            return 0;
        }
        let cp: u32 = codepoint_4(b0, bytes[at + 1], bytes[at + 2], bytes[at + 3]);
        if 0x10000 <= cp && cp <= 0x10ffff {
            4
        } else {
            0
        }
    } else {
        0
    }
}

/// Decides whether `bytes` is well-formed UTF-8.
pub fn is_valid_utf8(bytes: &[u8]) -> (ok: bool)
    ensures
        ok == valid_utf8(bytes@),
{
    let n: usize = bytes.len();
    let mut at: usize = 0;
    while at < n
        invariant
            n == bytes@.len(),
            partial_valid_utf8(bytes@, at as int),
        decreases n - at,
    {
        let width: usize = scalar_width(bytes, at);
        if width == 0 {
            proof {
                partial_valid_partial_invalid_utf8(bytes@, at as int);
            }
            return false;
        }
        proof {
            partial_valid_utf8_extend(bytes@, at as int);
        }
        at = at + width;
    }
    assert(bytes@.subrange(0, at as int) =~= bytes@);
    true
}

} // verus!
