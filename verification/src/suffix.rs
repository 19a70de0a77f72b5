//! Suffix tests on strings, carried out on their UTF-8 bytes.

use vstd::prelude::*;
use vstd::utf8::*;

verus! {

/// Encoding distributes over concatenation.
pub proof fn lemma_encode_concat(front: Seq<char>, back: Seq<char>)
    ensures
        encode_utf8(front + back) == encode_utf8(front) + encode_utf8(back),
    decreases front.len(),
{
    if front.len() == 0 {
        assert(front + back =~= back);
    } else {
        lemma_encode_concat(front.drop_first(), back);
        assert((front + back).drop_first() =~= front.drop_first() + back);
    }
}

/// A string ends with another exactly when its encoding ends with the
/// other's encoding: no character's bytes can end in a whole character.
pub proof fn lemma_suffix_of_encoding(tail: Seq<char>, whole: Seq<char>)
    ensures
        encode_utf8(tail).is_suffix_of(encode_utf8(whole)) <==> tail.is_suffix_of(whole),
{
    let bytes = encode_utf8(whole);
    let end = encode_utf8(tail);
    encode_utf8_valid_utf8(whole);
    encode_utf8_valid_utf8(tail);
    encode_utf8_decode_utf8(whole);
    encode_utf8_decode_utf8(tail);
    if tail.is_suffix_of(whole) {
        let front = whole.subrange(0, whole.len() - tail.len());
        assert(whole =~= front + tail);
        lemma_encode_concat(front, tail);
    }
    if end.is_suffix_of(bytes) {
        let cut = bytes.len() - end.len();
        assert(is_char_boundary(bytes, cut)) by {
            if end.len() == 0 {
                is_char_boundary_start_end_of_seq(bytes);
            } else {
                is_char_boundary_start_end_of_seq(end);
                is_char_boundary_iff_not_is_continuation_byte(end, 0);
                is_char_boundary_iff_not_is_continuation_byte(bytes, cut);
            }
        }
        decode_utf8_split(bytes, cut);
        let front = decode_utf8(bytes.subrange(0, cut));
        assert(bytes.subrange(cut, bytes.len() as int) =~= end);
        assert(whole =~= front + tail);
    }
}

/// Whether `whole` ends with `tail`, element by element.
pub fn slice_ends_with(whole: &[u8], tail: &[u8]) -> (found: bool)
    ensures
        found == tail@.is_suffix_of(whole@),
{
    if tail.len() > whole.len() {
        return false;
    }
    let shift: usize = whole.len() - tail.len();
    let mut i: usize = 0;
    while i < tail.len()
        invariant
            i <= tail.len(),
            shift + tail.len() == whole.len(),
            forall|j: int| 0 <= j < i ==> whole@[shift + j] == tail@[j],
        decreases tail.len() - i,
    {
        if whole[shift + i] != tail[i] {
            return false;
        }
        i += 1;
    }
    assert(tail@ =~= whole@.subrange(shift as int, whole@.len() as int));
    true
}

/// Whether `text` ends with `tail`, character by character. The empty
/// string ends every string.
pub fn ends_with(text: &str, tail: &str) -> (found: bool)
    ensures
        found == tail@.is_suffix_of(text@),
{
    proof {
        lemma_suffix_of_encoding(tail@, text@);
    }
    slice_ends_with(text.as_bytes(), tail.as_bytes())
}

} // verus!
