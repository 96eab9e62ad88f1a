//! Bytes as text: decoding UTF-8 and cutting a piece out of a text by byte
//! positions.

use vstd::prelude::*;
use vstd::utf8::{
    decode_utf8, encode_utf8, encode_utf8_decode_utf8, encode_utf8_valid_utf8, is_char_boundary,
    is_char_boundary_iff_not_is_continuation_byte, length_of_first_scalar, pop_first_scalar,
    valid_utf8,
};

verus! {

/// Decodes `bytes` as UTF-8.
///
/// Trusted: this is `String::from_utf8`. The contract states what its
/// documentation does: the call succeeds exactly on well-formed UTF-8, and the
/// text it returns has the given bytes as its encoding.
#[verifier::external_body]
pub(crate) fn text_from_utf8(bytes: Vec<u8>) -> (text: Option<String>)
    ensures
        text is Some <==> valid_utf8(bytes@),
        text matches Some(t) ==> encode_utf8(t@) == bytes@,
{
    String::from_utf8(bytes).ok()
}

/// In well-formed UTF-8 a character begins at every ASCII byte, and another
/// one right behind it.
pub proof fn lemma_boundary_after_ascii(bytes: Seq<u8>, at: int)
    requires
        valid_utf8(bytes),
        0 <= at < bytes.len(),
        bytes[at] <= 0x7f,
    ensures
        is_char_boundary(bytes, at),
        is_char_boundary(bytes, at + 1),
    decreases bytes.len(),
{
    is_char_boundary_iff_not_is_continuation_byte(bytes, at);
    let first = length_of_first_scalar(bytes);
    let rest = pop_first_scalar(bytes);
    reveal_with_fuel(is_char_boundary, 2);
    if at > 0 {
        lemma_boundary_after_ascii(rest, at - first);
    }
}

/// The text that the bytes from `start` up to `end` of `text` encode, where a
/// character begins at `start` and the byte at `end` is ASCII.
pub fn text_between(text: &str, start: usize, end: usize) -> (piece: String)
    requires
        start <= end < encode_utf8(text@).len(),
        is_char_boundary(encode_utf8(text@), start as int),
        encode_utf8(text@)[end as int] <= 0x7f,
    ensures
        piece@ == decode_utf8(encode_utf8(text@).subrange(start as int, end as int)),
        valid_utf8(encode_utf8(text@).subrange(start as int, end as int)),
{
    let (_, tail) = text.split_at(start);
    proof {
        encode_utf8_valid_utf8(tail@);
        is_char_boundary_iff_not_is_continuation_byte(encode_utf8(tail@), end - start);
    }
    let (middle, _) = tail.split_at(end - start);
    proof {
        assert(encode_utf8(middle@) =~= encode_utf8(text@).subrange(start as int, end as int));
        encode_utf8_decode_utf8(middle@);
        encode_utf8_valid_utf8(middle@);
    }
    middle.to_owned()
}

} // verus!
