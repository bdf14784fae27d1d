//! Fixed-width strings.
//!
//! A string field has a fixed width. Its text runs up to the first
//! terminator byte, or fills the field where there is none.
//!
//! The terminator is the digit `0` (0x30), not the NUL byte (0x00). This is
//! suspect: it may be a slip for NUL, and it is kept as it is until real
//! files settle the question. It matters: a text that holds the digit `0`
//! is cut there, and the NUL bytes of a NUL-padded field stay in the text.

use vstd::prelude::*;
use vstd::utf8::*;
use crate::error::Error;
use crate::layout::TERMINATOR;
use crate::reader::{served, Reader};

verus! {

/// What `String::from_utf8_lossy` makes of a span of bytes.
pub uninterp spec fn lossy_text(bytes: Seq<u8>) -> Seq<char>;

/// `String::from_utf8_lossy`, made into an owned string: the text of the
/// bytes, with each malformed sequence replaced by U+FFFD. Bytes that are
/// valid UTF-8 decode to exactly the text they encode.
#[verifier::external_body]
fn decode_lossy(bytes: &[u8]) -> (text: String)
    ensures
        text@ == lossy_text(bytes@),
        valid_utf8(bytes@) ==> text@ == decode_utf8(bytes@),
{
    String::from_utf8_lossy(bytes).into_owned()
}

/// The number of bytes of `span` that come before its first terminator:
/// the length of `span` where it holds none.
pub open spec fn text_len(span: Seq<u8>) -> nat
    decreases span.len(),
{
    if span.len() == 0 || span[0] == TERMINATOR {
        0
    } else {
        1 + text_len(span.drop_first())
    }
}

/// The bytes of `span` that make up its text.
pub open spec fn text_bytes(span: Seq<u8>) -> Seq<u8> {
    span.take(text_len(span) as int)
}

/// What bytes decode to: the text that they encode where they are valid
/// UTF-8, and else that text with each malformed sequence replaced.
pub open spec fn decoded(bytes: Seq<u8>) -> Seq<char> {
    if valid_utf8(bytes) {
        decode_utf8(bytes)
    } else {
        lossy_text(bytes)
    }
}

/// The text that a fixed-width span holds.
pub open spec fn text_of(span: Seq<u8>) -> Seq<char> {
    decoded(text_bytes(span))
}

/// Bytes read as one character each, which is what ASCII bytes encode.
pub open spec fn ascii_text(bytes: Seq<u8>) -> Seq<char> {
    Seq::new(bytes.len(), |i: int| bytes[i] as char)
}

/// `n` is where the text of `span` ends: no terminator comes before `n`,
/// and `n` is the end of the span or the place of a terminator.
pub open spec fn ends_text(span: Seq<u8>, n: int) -> bool {
    &&& 0 <= n <= span.len()
    &&& forall|i: int| 0 <= i < n ==> span[i] != TERMINATOR
    &&& n < span.len() ==> span[n] == TERMINATOR
}

/// The text of a span ends at `text_len`, and nowhere else.
pub proof fn lemma_text_len(span: Seq<u8>, n: int)
    ensures
        ends_text(span, text_len(span) as int),
        ends_text(span, n) ==> n == text_len(span),
    decreases span.len(),
{
    if span.len() == 0 || span[0] == TERMINATOR {
    } else {
        let rest = span.drop_first();
        lemma_text_len(rest, n - 1);
        assert forall|i: int| 0 <= i < text_len(span) implies span[i] != TERMINATOR by {
            if i > 0 {
                assert(span[i] == rest[i - 1]);
            }
        }
        if ends_text(span, n) {
            assert(n > 0);
            assert forall|i: int| 0 <= i < n - 1 implies rest[i] != TERMINATOR by {
                assert(rest[i] == span[i + 1]);
            }
            assert(ends_text(rest, n - 1));
        }
    }
}

/// A span without a terminator is text from end to end.
pub proof fn lemma_text_fills_span(span: Seq<u8>)
    requires
        forall|i: int| 0 <= i < span.len() ==> span[i] != TERMINATOR,
    ensures
        text_bytes(span) == span,
        text_of(span) == decoded(span),
{
    lemma_text_len(span, span.len() as int);
    assert(span.take(span.len() as int) =~= span);
}

/// ASCII bytes are valid UTF-8 and decode to one character each.
pub proof fn lemma_ascii_decoded(bytes: Seq<u8>)
    requires
        forall|i: int| 0 <= i < bytes.len() ==> bytes[i] < 0x80,
    ensures
        valid_utf8(bytes),
        decoded(bytes) == ascii_text(bytes),
    decreases bytes.len(),
{
    if bytes.len() == 0 {
        assert(decode_utf8(bytes) =~= ascii_text(bytes));
    } else {
        let first = bytes[0];
        let rest = pop_first_scalar(bytes);
        assert(first & 0x7f == first) by (bit_vector)
            requires
                first < 0x80,
        ;
        assert(is_leading_byte_width_1(first));
        assert(decode_first_scalar(bytes) == first as u32);
        assert(valid_first_scalar(bytes));
        assert(rest =~= bytes.drop_first());
        assert forall|i: int| 0 <= i < rest.len() implies rest[i] < 0x80 by {
            assert(rest[i] == bytes[i + 1]);
        }
        lemma_ascii_decoded(rest);
        assert(valid_utf8(bytes));
        assert(first as u32 as char == first as char);
        assert(decode_utf8(bytes) =~= ascii_text(bytes));
    }
}

/// The text of a field whose bytes before the terminator are ASCII is
/// those bytes, one character each.
pub proof fn lemma_ascii_field(span: Seq<u8>)
    requires
        forall|i: int| 0 <= i < text_len(span) ==> span[i] < 0x80,
    ensures
        text_of(span) == ascii_text(text_bytes(span)),
{
    lemma_text_len(span, 0);
    lemma_ascii_decoded(text_bytes(span));
}

/// Produces the text of a fixed-width string: everything before the first
/// terminator, decoded as UTF-8 with malformed sequences replaced.
pub fn petra_string(buf: &[u8]) -> (text: String)
    ensures
        text@ == text_of(buf@),
{
    let mut len: usize = 0;
    while len < buf.len() && buf[len] != TERMINATOR
        invariant
            len <= buf.len(),
            forall|i: int| 0 <= i < len ==> buf@[i] != TERMINATOR,
        decreases buf.len() - len,
    {
        len += 1;
    }
    proof {
        lemma_text_len(buf@, len as int);
    }
    let head = &buf[0..len];
    assert(head@ =~= text_bytes(buf@));
    decode_lossy(head)
}

/// Reads a string field of `WIDTH` bytes at the cursor and produces its
/// text. Fails where the source ends before the field does.
pub fn read_petra_string<const WIDTH: usize>(source: &mut Reader) -> (read: Result<String, Error>)
    ensures
        final(source).source@ == old(source).source@,
        read is Ok <==> served(old(source).source@.len(), old(source).position as nat, WIDTH as nat),
        read is Ok ==> read->Ok_0@ == text_at(
            old(source).source@,
            old(source).position as int,
            WIDTH as int,
        ),
        read is Ok ==> final(source).position == (if WIDTH == 0 {
            old(source).position as int
        } else {
            old(source).position + WIDTH
        }),
        read is Err ==> read->Err_0 == Error::UnexpectedEof && final(source).position == old(
            source,
        ).position,
{
    match source.read_bytes(WIDTH) {
        Ok(buf) => {
            assert(buf@ =~= field(old(source).source@, old(source).position as int, WIDTH as int));
            Ok(petra_string(buf))
        },
        Err(e) => Err(e),
    }
}

/// The bytes of the field of `width` bytes that lies at `offset` in
/// `source`.
pub open spec fn field(source: Seq<u8>, offset: int, width: int) -> Seq<u8> {
    if width == 0 {
        Seq::empty()
    } else {
        source.subrange(offset, offset + width)
    }
}

/// The text of the string field of `width` bytes that lies at `offset` in
/// `source`.
pub open spec fn text_at(source: Seq<u8>, offset: int, width: int) -> Seq<char> {
    text_of(field(source, offset, width))
}

} // verus!
