//! Character indices and the byte offsets they stand for in UTF-8 text.

use vstd::prelude::*;
use vstd::std_specs::iter::IteratorSpec;
use vstd::utf8::*;

verus! {

/// The character index `i` brought into the range of `text`: indices past
/// the last character stand for the end of the text.
pub open spec fn clip_index(text: Seq<char>, i: int) -> int {
    if i < 0 {
        0
    } else if i > text.len() {
        text.len() as int
    } else {
        i
    }
}

/// The byte offset, in the UTF-8 encoding of `text`, at which the character
/// with index `i` starts. For an index past the last character this is the
/// length of the whole encoding.
pub open spec fn byte_offset(text: Seq<char>, i: int) -> nat {
    encode_utf8(text.take(clip_index(text, i))).len()
}

/// `char::len_utf8` returns the number of bytes that the UTF-8 encoding of
/// the character takes.
pub assume_specification[ char::len_utf8 ](c: char) -> (n: usize)
    ensures
        n == encode_scalar(c as u32).len(),
;

/// `String::insert` places the encoding of `ch` at byte position `idx` and
/// keeps the bytes on either side. It panics unless `idx` lies on a character
/// boundary of the string, its end included.
pub assume_specification[ String::insert ](s: &mut String, idx: usize, ch: char)
    requires
        is_char_boundary(encode_utf8(old(s)@), idx as int),
    ensures
        encode_utf8(final(s)@) == encode_utf8(old(s)@).subrange(0, idx as int) + encode_scalar(
            ch as u32,
        ) + encode_utf8(old(s)@).subrange(idx as int, encode_utf8(old(s)@).len() as int),
;

/// Encoding distributes over concatenation.
pub proof fn lemma_encode_concat(a: Seq<char>, b: Seq<char>)
    ensures
        encode_utf8(a + b) == encode_utf8(a) + encode_utf8(b),
    decreases a.len(),
{
    if a.len() == 0 {
        assert(a + b =~= b);
        assert(encode_utf8(a) + encode_utf8(b) =~= encode_utf8(b));
    } else {
        assert((a + b).drop_first() =~= a.drop_first() + b);
        lemma_encode_concat(a.drop_first(), b);
        assert(encode_utf8(a + b) =~= encode_utf8(a) + encode_utf8(b));
    }
}

/// A text of one character encodes to that character's bytes.
pub proof fn lemma_encode_single(c: char)
    ensures
        encode_utf8(seq![c]) == encode_scalar(c as u32),
{
    reveal_with_fuel(encode_utf8, 2);
    assert(seq![c].drop_first() =~= Seq::<char>::empty());
    assert(encode_utf8(seq![c]) =~= encode_scalar(c as u32));
}

/// The offset of the next character lies one encoded character further on.
pub proof fn lemma_byte_offset_step(text: Seq<char>, i: int)
    requires
        0 <= i < text.len(),
    ensures
        byte_offset(text, i + 1) == byte_offset(text, i) + encode_scalar(text[i] as u32).len(),
{
    assert(text.take(i + 1) =~= text.take(i) + seq![text[i]]);
    lemma_encode_concat(text.take(i), seq![text[i]]);
    lemma_encode_single(text[i]);
}

/// Cutting the encoding at the offset of a character index gives the
/// encodings of the characters before and from that index.
pub proof fn lemma_split_at_offset(text: Seq<char>, i: int)
    requires
        0 <= i <= text.len(),
    ensures
        byte_offset(text, i) <= encode_utf8(text).len(),
        encode_utf8(text).subrange(0, byte_offset(text, i) as int) == encode_utf8(text.take(i)),
        encode_utf8(text).subrange(byte_offset(text, i) as int, encode_utf8(text).len() as int)
            == encode_utf8(text.skip(i)),
{
    assert(text =~= text.take(i) + text.skip(i));
    lemma_encode_concat(text.take(i), text.skip(i));
    let head = encode_utf8(text.take(i));
    let tail = encode_utf8(text.skip(i));
    assert((head + tail).subrange(0, head.len() as int) =~= head);
    assert((head + tail).subrange(head.len() as int, (head + tail).len() as int) =~= tail);
}

/// Offsets grow with the index and never pass the end of the encoding.
pub proof fn lemma_byte_offset_bounds(text: Seq<char>, i: int, j: int)
    requires
        i <= j,
    ensures
        byte_offset(text, i) <= byte_offset(text, j) <= encode_utf8(text).len(),
{
    let ci = clip_index(text, i);
    let cj = clip_index(text, j);
    lemma_split_at_offset(text, cj);
    assert(text.take(cj).take(ci) =~= text.take(ci));
    lemma_split_at_offset(text.take(cj), ci);
}

/// The offset of every character index is a character boundary of the
/// encoding.
pub proof fn lemma_byte_offset_is_boundary(text: Seq<char>, i: int)
    ensures
        is_char_boundary(encode_utf8(text), byte_offset(text, i) as int),
    decreases text.len(),
{
    let bytes = encode_utf8(text);
    let k = clip_index(text, i);
    encode_utf8_valid_utf8(text);
    if k == 0 {
        assert(text.take(0) =~= Seq::<char>::empty());
    } else {
        let rest = text.drop_first();
        encode_utf8_first_scalar(text);
        assert(pop_first_scalar(bytes) =~= encode_utf8(rest));
        assert(text.take(k) =~= seq![text[0]] + rest.take(k - 1));
        lemma_encode_concat(seq![text[0]], rest.take(k - 1));
        lemma_encode_single(text[0]);
        lemma_byte_offset_is_boundary(rest, k - 1);
        lemma_byte_offset_bounds(text, k, k);
        assert(byte_offset(text, i) == length_of_first_scalar(bytes) + byte_offset(rest, k - 1));
    }
}

/// Putting the bytes of `c` at the byte offset of character index `i` gives
/// the encoding of the text with `c` inserted at `i`.
pub proof fn lemma_insert_at_offset(text: Seq<char>, i: int, c: char)
    requires
        0 <= i <= text.len(),
    ensures
        encode_utf8(text.insert(i, c)) == encode_utf8(text).subrange(
            0,
            byte_offset(text, i) as int,
        ) + encode_scalar(c as u32) + encode_utf8(text).subrange(
            byte_offset(text, i) as int,
            encode_utf8(text).len() as int,
        ),
{
    lemma_split_at_offset(text, i);
    lemma_encode_single(c);
    assert(text.insert(i, c) =~= text.take(i) + seq![c] + text.skip(i));
    lemma_encode_concat(text.take(i), seq![c]);
    lemma_encode_concat(text.take(i) + seq![c], text.skip(i));
}

/// The byte offset at which the character with index `char_index` starts.
/// An index past the last character falls back to the end of the text.
pub fn byte_index_of(text: &str, char_index: usize) -> (offset: usize)
    ensures
        offset == byte_offset(text@, char_index as int),
{
    let end = text.as_bytes().len();
    let mut offset: usize = 0;
    let mut seen: usize = 0;
    let mut rest = text.chars();
    while seen < char_index
        invariant
            seen <= char_index,
            seen <= text@.len(),
            rest.remaining() == text@.skip(seen as int),
            offset == byte_offset(text@, seen as int),
            end == encode_utf8(text@).len(),
        decreases text@.len() - seen,
    {
        match rest.next() {
            Some(c) => {
                proof {
                    lemma_byte_offset_step(text@, seen as int);
                    lemma_byte_offset_bounds(text@, seen + 1, seen + 1);
                }
                offset = offset + c.len_utf8();
                seen = seen + 1;
            },
            None => {
                proof {
                    assert(text@.take(seen as int) =~= text@);
                }
                return end;
            },
        }
    }
    offset
}

} // verus!
