//! Null-terminated byte strings, modelled as sequences of bytes.
//!
//! The text of a buffer is everything in front of its first zero byte. A
//! buffer without a zero byte is read to its end.

use vstd::prelude::*;
use vstd::slice::slice_subrange;

verus! {

/// The number of bytes in front of the first zero byte of `buf`, or the
/// length of `buf` when it holds no zero byte.
pub open spec fn text_len(buf: Seq<u8>) -> nat
    decreases buf.len(),
{
    if buf.len() == 0 || buf[0] == 0 {
        0
    } else {
        1 + text_len(buf.drop_first())
    }
}

/// The text that `buf` holds: its bytes up to the terminator.
pub open spec fn text_of(buf: Seq<u8>) -> Seq<u8> {
    buf.take(text_len(buf) as int)
}

/// True when `n` bytes of text stand at the front of `buf`: none of them is
/// zero, and the text ends at a zero byte or at the end of the buffer.
pub open spec fn ends_text_at(buf: Seq<u8>, n: int) -> bool {
    &&& 0 <= n <= buf.len()
    &&& forall|j: int| 0 <= j < n ==> buf[j] != 0
    &&& n < buf.len() ==> buf[n] == 0
}

/// True when `buf` is exactly a text followed by its terminator: the only
/// zero byte is the last byte.
pub open spec fn is_terminated(buf: Seq<u8>) -> bool {
    buf.len() == text_len(buf) + 1
}

/// The text of a buffer ends at `text_len`.
pub proof fn lemma_text_len_ends_text(buf: Seq<u8>)
    ensures
        ends_text_at(buf, text_len(buf) as int),
    decreases buf.len(),
{
    if buf.len() == 0 || buf[0] == 0 {
    } else {
        let rest = buf.drop_first();
        lemma_text_len_ends_text(rest);
        assert forall|j: int| 0 <= j < text_len(buf) implies buf[j] != 0 by {
            if j > 0 {
                assert(buf[j] == rest[j - 1]);
            }
        }
    }
}

/// The text of a buffer ends nowhere but at `text_len`.
pub proof fn lemma_ends_text_unique(buf: Seq<u8>, n: int)
    requires
        ends_text_at(buf, n),
    ensures
        n == text_len(buf),
    decreases buf.len(),
{
    if buf.len() == 0 || buf[0] == 0 {
    } else {
        let rest = buf.drop_first();
        assert forall|j: int| 0 <= j < n - 1 implies rest[j] != 0 by {
            assert(rest[j] == buf[j + 1]);
        }
        lemma_ends_text_unique(rest, n - 1);
    }
}

/// A text holds no zero byte.
pub proof fn lemma_text_has_no_zero(buf: Seq<u8>)
    ensures
        !text_of(buf).contains(0u8),
{
    lemma_text_len_ends_text(buf);
}

/// Appending the terminator to a text without a zero byte gives a terminated
/// buffer that holds exactly that text.
pub proof fn lemma_push_terminator(text: Seq<u8>)
    requires
        !text.contains(0u8),
    ensures
        is_terminated(text.push(0u8)),
        text_of(text.push(0u8)) == text,
{
    let buf = text.push(0u8);
    assert forall|j: int| 0 <= j < text.len() implies buf[j] != 0 by {
        assert(text.contains(text[j]));
    }
    lemma_ends_text_unique(buf, text.len() as int);
    assert(buf.take(text.len() as int) =~= text);
}

/// Measures the text of `buf`.
pub fn text_length(buf: &[u8]) -> (n: usize)
    ensures
        n == text_len(buf@),
        ends_text_at(buf@, n as int),
{
    let mut n: usize = 0;
    while n < buf.len() && buf[n] != 0
        invariant
            n <= buf@.len(),
            forall|j: int| 0 <= j < n ==> buf@[j] != 0,
        decreases buf@.len() - n,
    {
        n = n + 1;
    }
    proof {
        lemma_ends_text_unique(buf@, n as int);
    }
    n
}

/// Borrows the text of `buf`, without its terminator.
pub fn text(buf: &[u8]) -> (t: &[u8])
    ensures
        t@ == text_of(buf@),
{
    let n: usize = text_length(buf);
    slice_subrange(buf, 0, n)
}

} // verus!
