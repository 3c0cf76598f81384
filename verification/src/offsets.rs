//! Byte offsets and character offsets in a text.
//!
//! A pattern search reports where a match lies by byte offsets into the
//! UTF-8 form of the text. Callers of the session are given character
//! offsets. This module relates the two.

use vstd::prelude::*;
use vstd::utf8::decode_utf8;
use vstd::utf8::decode_utf8_encode_utf8;
use vstd::utf8::decode_utf8_split;
use vstd::utf8::encode_scalar;
use vstd::utf8::encode_utf8;
use vstd::utf8::encode_utf8_decode_utf8;
use vstd::utf8::encode_utf8_valid_utf8;
use vstd::utf8::is_char_boundary;
use vstd::utf8::is_char_boundary_iff_not_is_continuation_byte;
use vstd::utf8::is_char_boundary_start_end_of_seq;
use vstd::utf8::valid_utf8;
use vstd::utf8::valid_utf8_split;

verus! {

/// Whether `offset` is a place in the UTF-8 form of `text` where one
/// character ends and the next begins (the two ends of the text included).
pub open spec fn on_boundary(text: Seq<char>, offset: int) -> bool {
    0 <= offset <= encode_utf8(text).len() && is_char_boundary(encode_utf8(text), offset)
}

/// The number of characters of `text` that lie before byte `offset` of its
/// UTF-8 form.
pub open spec fn char_position(text: Seq<char>, offset: int) -> nat {
    decode_utf8(encode_utf8(text).subrange(0, offset)).len()
}

/// An encoding is never shorter than the text it encodes.
pub proof fn lemma_encoding_covers_chars(chars: Seq<char>)
    ensures
        chars.len() <= encode_utf8(chars).len(),
    decreases chars.len(),
{
    if chars.len() > 0 {
        lemma_encoding_covers_chars(chars.drop_first());
        assert(encode_scalar(chars[0] as u32).len() >= 1);
    }
}

/// A boundary of the whole is a boundary of every suffix that starts at an
/// earlier boundary.
proof fn lemma_boundary_in_suffix(bytes: Seq<u8>, from: int, to: int)
    requires
        valid_utf8(bytes),
        0 <= from <= to <= bytes.len(),
        is_char_boundary(bytes, from),
        is_char_boundary(bytes, to),
    ensures
        valid_utf8(bytes.subrange(from, bytes.len() as int)),
        is_char_boundary(bytes.subrange(from, bytes.len() as int), to - from),
{
    let suffix = bytes.subrange(from, bytes.len() as int);
    valid_utf8_split(bytes, from);
    if to == bytes.len() {
        is_char_boundary_start_end_of_seq(suffix);
    } else {
        is_char_boundary_iff_not_is_continuation_byte(bytes, to);
        is_char_boundary_iff_not_is_continuation_byte(suffix, to - from);
    }
}

/// A boundary of the whole is a boundary of every prefix that ends at a
/// later boundary.
proof fn lemma_boundary_in_prefix(bytes: Seq<u8>, from: int, to: int)
    requires
        valid_utf8(bytes),
        0 <= from <= to <= bytes.len(),
        is_char_boundary(bytes, from),
        is_char_boundary(bytes, to),
    ensures
        valid_utf8(bytes.subrange(0, to)),
        is_char_boundary(bytes.subrange(0, to), from),
{
    let prefix = bytes.subrange(0, to);
    valid_utf8_split(bytes, to);
    if from == to {
        is_char_boundary_start_end_of_seq(prefix);
    } else {
        is_char_boundary_iff_not_is_continuation_byte(bytes, from);
        is_char_boundary_iff_not_is_continuation_byte(prefix, from);
    }
}

/// Seen from an earlier boundary, a later boundary of `text` is a boundary
/// of what is left of the text.
pub proof fn lemma_boundary_between(text: Seq<char>, from: int, to: int)
    requires
        on_boundary(text, from),
        on_boundary(text, to),
        from <= to,
    ensures
        is_char_boundary(
            encode_utf8(text).subrange(from, encode_utf8(text).len() as int),
            to - from,
        ),
{
    encode_utf8_valid_utf8(text);
    lemma_boundary_in_suffix(encode_utf8(text), from, to);
}

/// Between two boundaries `from <= to` lie whole characters: they are the
/// characters of `text` from position `char_position(from)` up to
/// `char_position(to)`, and nothing else.
pub proof fn lemma_chars_between(text: Seq<char>, from: int, to: int)
    requires
        on_boundary(text, from),
        on_boundary(text, to),
        from <= to,
    ensures
        valid_utf8(encode_utf8(text).subrange(from, to)),
        char_position(text, from) <= char_position(text, to) <= text.len(),
        char_position(text, to) <= to,
        decode_utf8(encode_utf8(text).subrange(from, to)) == text.subrange(
            char_position(text, from) as int,
            char_position(text, to) as int,
        ),
        char_position(text, to) == char_position(text, from) + decode_utf8(
            encode_utf8(text).subrange(from, to),
        ).len(),
{
    let bytes = encode_utf8(text);
    encode_utf8_valid_utf8(text);
    encode_utf8_decode_utf8(text);
    let head = bytes.subrange(0, to);
    let tail = bytes.subrange(to, bytes.len() as int);
    lemma_boundary_in_prefix(bytes, from, to);
    decode_utf8_split(bytes, to);
    assert(text == decode_utf8(head) + decode_utf8(tail));
    valid_utf8_split(head, from);
    decode_utf8_split(head, from);
    let before = head.subrange(0, from);
    let between = head.subrange(from, head.len() as int);
    assert(before =~= bytes.subrange(0, from));
    assert(between =~= bytes.subrange(from, to));
    assert(decode_utf8(head) == decode_utf8(before) + decode_utf8(between));
    assert(decode_utf8(between) =~= text.subrange(
        decode_utf8(before).len() as int,
        decode_utf8(head).len() as int,
    ));
    decode_utf8_encode_utf8(head);
    lemma_encoding_covers_chars(decode_utf8(head));
}

} // verus!
