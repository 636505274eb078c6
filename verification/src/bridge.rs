//! The two operations of the bridge: echo a borrowed string into an owned
//! buffer, and take an owned buffer back.

use crate::terminated::{
    is_terminated, lemma_push_terminator, lemma_text_has_no_zero, text, text_of,
};
use crate::validation::is_valid_utf8;
use vstd::prelude::*;
use vstd::slice::slice_to_vec;
use vstd::string::StringSliceAdditionalSpecFns;
use vstd::utf8::*;

verus! {

/// The text that stands in for an input that is not well-formed UTF-8.
pub const FALLBACK: &'static str = "invalid UTF-8";

/// The bytes of the fallback text.
pub open spec fn fallback_text() -> Seq<u8> {
    FALLBACK.spec_bytes()
}

/// The text that the bridge answers with when it is given `text`: the same
/// bytes when they are well-formed UTF-8, the fallback text otherwise.
pub open spec fn echoed_text(text: Seq<u8>) -> Seq<u8> {
    if valid_utf8(text) {
        text
    } else {
        fallback_text()
    }
}

/// The owned buffer that the bridge allocates for the borrowed buffer
/// `input`: the echoed text of `input`, followed by the terminator.
pub open spec fn echoed_buffer(input: Seq<u8>) -> Seq<u8> {
    echoed_text(text_of(input)).push(0u8)
}

/// The fallback text, byte for byte. It is plain ASCII, so it is well-formed
/// UTF-8, decodes to the characters of `FALLBACK` and holds no zero byte.
pub proof fn lemma_fallback_text()
    ensures
        fallback_text() == seq![105u8, 110, 118, 97, 108, 105, 100, 32, 85, 84, 70, 45, 56],
        valid_utf8(fallback_text()),
        decode_utf8(fallback_text()) == FALLBACK@,
        !fallback_text().contains(0u8),
{
    reveal_strlit("invalid UTF-8");
    assert(is_ascii_chars(FALLBACK@));
    is_ascii_chars_encode_utf8(FALLBACK@);
    encode_utf8_valid_utf8(FALLBACK@);
    encode_utf8_decode_utf8(FALLBACK@);
    assert(fallback_text() =~= seq![105u8, 110, 118, 97, 108, 105, 100, 32, 85, 84, 70, 45, 56]);
}

/// The bridge always answers with a terminated buffer whose text is
/// well-formed UTF-8.
pub proof fn lemma_echoed_buffer_well_formed(input: Seq<u8>)
    ensures
        is_terminated(echoed_buffer(input)),
        text_of(echoed_buffer(input)) == echoed_text(text_of(input)),
        valid_utf8(text_of(echoed_buffer(input))),
{
    lemma_fallback_text();
    lemma_text_has_no_zero(input);
    lemma_push_terminator(echoed_text(text_of(input)));
}

/// Round trip: a text that is well-formed UTF-8 comes back unchanged, byte
/// for byte and so character for character.
pub proof fn lemma_round_trip(input: Seq<u8>)
    requires
        valid_utf8(text_of(input)),
    ensures
        text_of(echoed_buffer(input)) == text_of(input),
        decode_utf8(text_of(echoed_buffer(input))) == decode_utf8(text_of(input)),
{
    lemma_echoed_buffer_well_formed(input);
}

/// Substitution: a text that is not well-formed UTF-8 is answered with the
/// fallback text, which reads back as the characters of `FALLBACK`.
pub proof fn lemma_substitution(input: Seq<u8>)
    requires
        !valid_utf8(text_of(input)),
    ensures
        text_of(echoed_buffer(input)) == fallback_text(),
        decode_utf8(text_of(echoed_buffer(input))) == FALLBACK@,
{
    lemma_fallback_text();
    lemma_echoed_buffer_well_formed(input);
}

/// Echoes a borrowed string into a newly allocated buffer.
///
/// `input` is the caller's reference: `None` for the null reference,
/// otherwise the bytes of a null-terminated string, read up to the first zero
/// byte. The null reference is answered with `None` and nothing is allocated.
/// Any other input is answered with a buffer that the caller owns from then
/// on: the text of the input when that is well-formed UTF-8, the fallback
/// text when it is not, and the terminator behind it. The input is only read
/// during the call.
pub fn process_string(input: Option<&[u8]>) -> (output: Option<Vec<u8>>)
    ensures
        input is None <==> output is None,
        input matches Some(borrowed) ==> {
            &&& output matches Some(owned)
            &&& owned@ == echoed_buffer(borrowed@)
            &&& is_terminated(owned@)
            &&& valid_utf8(text_of(owned@))
            &&& valid_utf8(text_of(borrowed@)) ==> text_of(owned@) == text_of(borrowed@)
            &&& !valid_utf8(text_of(borrowed@)) ==> text_of(owned@) == fallback_text()
        },
    no_unwind when input is None
{
    let borrowed: &[u8] = match input {
        None => {
            return None;
        },
        Some(borrowed) => borrowed,
    };
    let received: &[u8] = text(borrowed);
    let recipient: &[u8] = if is_valid_utf8(received) {
        received
    } else {
        FALLBACK.as_bytes()
    };
    let mut owned: Vec<u8> = slice_to_vec(recipient);
    owned.push(0u8);
    proof {
        lemma_echoed_buffer_well_formed(borrowed@);
    }
    Some(owned)
}

/// Takes back a buffer that `process_string` handed out and releases it.
///
/// `None`, the null reference, is accepted and nothing happens. The buffer is
/// passed by value: after the call the caller holds nothing that could be
/// read or released a second time. The call never unwinds, whatever it is
/// given.
pub fn free_string(ptr: Option<Vec<u8>>)
    no_unwind
{
    match ptr {
        None => {},
        // The buffer is released where this binding goes out of scope.
        Some(_owned) => {},
    }
}

} // verus!
