//! Byte offsets into UTF-8 text, and the contracts of the `String` and `char`
//! operations that the text buffer is built on.

use vstd::prelude::*;
use vstd::std_specs::iter::IteratorSpec;
use vstd::string::*;
use vstd::utf8::*;

verus! {

/// The number of bytes that the first `count` characters of `text` take in
/// UTF-8; every character of `text` where `count` is larger than its length.
pub open spec fn byte_offset(text: Seq<char>, count: int) -> int {
    if count <= 0 {
        0
    } else if count >= text.len() {
        encode_utf8(text).len() as int
    } else {
        encode_utf8(text.take(count)).len() as int
    }
}

/// `char::len_utf8` gives the number of bytes of the character's UTF-8
/// encoding.
pub assume_specification[ char::len_utf8 ](c: char) -> (n: usize)
    ensures
        n == encode_scalar(c as u32).len(),
;

/// `String::insert` puts the encoding of `ch` at byte position `idx`, which
/// has to be a character boundary of the string, and keeps the bytes on both
/// sides of it.
pub assume_specification[ String::insert ](s: &mut String, idx: usize, ch: char)
    requires
        is_char_boundary(encode_utf8(old(s)@), idx as int),
    ensures
        encode_utf8(final(s)@) == encode_utf8(old(s)@).subrange(0, idx as int) + encode_scalar(
            ch as u32,
        ) + encode_utf8(old(s)@).subrange(idx as int, encode_utf8(old(s)@).len() as int),
;

/// `String::clear` leaves the string empty.
pub assume_specification[ String::clear ](s: &mut String)
    ensures
        final(s)@ == Seq::<char>::empty(),
;

/// `String::replace_range` with an empty replacement: the bytes from `from`
/// up to `to` leave the string and the bytes on both sides stay. Both ends
/// have to be character boundaries of the string, `from` not after `to`.
#[verifier::external_body]
pub(crate) fn erase_range(s: &mut String, from: usize, to: usize)
    requires
        from <= to,
        is_char_boundary(encode_utf8(old(s)@), from as int),
        is_char_boundary(encode_utf8(old(s)@), to as int),
    ensures
        encode_utf8(final(s)@) == encode_utf8(old(s)@).subrange(0, from as int) + encode_utf8(
            old(s)@,
        ).subrange(to as int, encode_utf8(old(s)@).len() as int),
{
    s.replace_range(from..to, "");
}

/// Encoding a concatenation gives the concatenation of the encodings.
pub proof fn lemma_encode_concat(a: Seq<char>, b: Seq<char>)
    ensures
        encode_utf8(a + b) == encode_utf8(a) + encode_utf8(b),
    decreases a.len(),
{
    if a.len() == 0 {
        assert(a + b =~= b);
        assert(encode_utf8(a) + encode_utf8(b) =~= encode_utf8(b));
    } else {
        assert((a + b).drop_first() =~= a.drop_first() + b);
        lemma_encode_concat(a.drop_first(), b);
        assert(encode_utf8(a + b) =~= encode_utf8(a) + encode_utf8(b));
    }
}

/// The encoding of a prefix is no longer than the encoding of the whole.
pub proof fn lemma_prefix_bytes(text: Seq<char>, count: int)
    requires
        0 <= count <= text.len(),
    ensures
        encode_utf8(text) == encode_utf8(text.take(count)) + encode_utf8(text.skip(count)),
        encode_utf8(text.take(count)).len() <= encode_utf8(text).len(),
{
    assert(text =~= text.take(count) + text.skip(count));
    lemma_encode_concat(text.take(count), text.skip(count));
}

/// One more character lengthens the encoding of a prefix by its own encoding.
pub proof fn lemma_prefix_step(text: Seq<char>, count: int)
    requires
        0 <= count < text.len(),
    ensures
        encode_utf8(text.take(count + 1)) == encode_utf8(text.take(count)) + encode_scalar(
            text[count] as u32,
        ),
{
    let one = seq![text[count]];
    assert(text.take(count + 1) =~= text.take(count) + one);
    lemma_encode_concat(text.take(count), one);
    assert(one.drop_first() =~= Seq::<char>::empty());
    assert(encode_utf8(one) =~= encode_scalar(text[count] as u32)) by {
        reveal_with_fuel(encode_utf8, 2);
    }
}

/// Two texts with the same encoding are the same text.
pub proof fn lemma_encode_injective(a: Seq<char>, b: Seq<char>)
    requires
        encode_utf8(a) == encode_utf8(b),
    ensures
        a == b,
{
    encode_utf8_decode_utf8(a);
    encode_utf8_decode_utf8(b);
}

/// The byte offset of a character position is a character boundary of the
/// encoded text.
pub proof fn lemma_offset_is_boundary(text: Seq<char>, count: int)
    ensures
        is_char_boundary(encode_utf8(text), byte_offset(text, count)),
    decreases text.len(),
{
    let bytes = encode_utf8(text);
    encode_utf8_valid_utf8(text);
    if count <= 0 {
    } else if count >= text.len() {
        is_char_boundary_start_end_of_seq(bytes);
    } else {
        let rest = text.drop_first();
        encode_utf8_first_scalar(text);
        assert(pop_first_scalar(bytes) =~= encode_utf8(rest));
        assert(text.take(count).drop_first() =~= rest.take(count - 1));
        lemma_offset_is_boundary(rest, count - 1);
        assert(byte_offset(text, count) == encode_scalar(text[0] as u32).len() + byte_offset(
            rest,
            count - 1,
        ));
    }
}

/// Cutting the encoded text at the byte offset of a character position gives
/// the encodings of the characters before and after that position.
pub proof fn lemma_split_at_offset(text: Seq<char>, count: int)
    requires
        0 <= count <= text.len(),
    ensures
        byte_offset(text, count) == encode_utf8(text.take(count)).len(),
        encode_utf8(text).subrange(0, byte_offset(text, count)) == encode_utf8(text.take(count)),
        encode_utf8(text).subrange(byte_offset(text, count), encode_utf8(text).len() as int)
            == encode_utf8(text.skip(count)),
{
    lemma_prefix_bytes(text, count);
    if count == 0 {
        assert(text.take(0) =~= Seq::<char>::empty());
    }
    if count == text.len() {
        assert(text.take(count) =~= text);
    }
    let head = encode_utf8(text.take(count));
    let tail = encode_utf8(text.skip(count));
    assert((head + tail).subrange(0, head.len() as int) =~= head);
    assert((head + tail).subrange(head.len() as int, (head + tail).len() as int) =~= tail);
}

/// The byte position at which the character with index `count` starts in
/// `text`, or the length of `text` in bytes where it has no such character.
pub fn byte_offset_of(text: &str, count: usize) -> (offset: usize)
    ensures
        offset == byte_offset(text@, count as int),
{
    let total: usize = text.as_bytes().len();
    let mut chars = text.chars();
    let mut seen: usize = 0;
    let mut offset: usize = 0;
    loop
        invariant
            seen <= count,
            seen <= text@.len(),
            chars.remaining() == text@.skip(seen as int),
            offset == encode_utf8(text@.take(seen as int)).len(),
            total == encode_utf8(text@).len(),
        decreases text@.len() - seen,
    {
        if seen == count {
            proof {
                assert(text@.take(text@.len() as int) =~= text@);
            }
            return offset;
        }
        match chars.next() {
            None => {
                proof {
                    assert(text@.take(text@.len() as int) =~= text@);
                }
                return total;
            },
            Some(c) => {
                proof {
                    lemma_prefix_step(text@, seen as int);
                    lemma_prefix_bytes(text@, seen + 1);
                }
                offset = offset + c.len_utf8();
                seen = seen + 1;
            },
        }
    }
}

} // verus!
