//! Whether one string begins with another.

use vstd::prelude::*;
use vstd::string::StringSliceAdditionalSpecFns;
use vstd::utf8::{
    decode_utf8, decode_utf8_split, encode_utf8, encode_utf8_decode_utf8, encode_utf8_valid_utf8,
    is_char_boundary, length_of_first_scalar, pop_first_scalar, valid_first_scalar, valid_utf8,
};

verus! {

/// The encoding of two strings joined is the two encodings joined.
proof fn lemma_encode_concat(left: Seq<char>, right: Seq<char>)
    ensures
        encode_utf8(left + right) == encode_utf8(left) + encode_utf8(right),
    decreases left.len(),
{
    if left.len() == 0 {
        assert(left + right =~= right);
        assert(encode_utf8(left) + encode_utf8(right) =~= encode_utf8(right));
    } else {
        assert((left + right).drop_first() =~= left.drop_first() + right);
        lemma_encode_concat(left.drop_first(), right);
        assert(encode_utf8(left + right) =~= encode_utf8(left) + encode_utf8(right));
    }
}

/// Where a well-formed encoding begins with another, the other ends where a
/// character of the first begins or at its end.
proof fn lemma_prefix_ends_on_boundary(bytes: Seq<u8>, prefix: Seq<u8>)
    requires
        valid_utf8(bytes),
        valid_utf8(prefix),
        prefix.is_prefix_of(bytes),
    ensures
        is_char_boundary(bytes, prefix.len() as int),
    decreases prefix.len(),
{
    if prefix.len() > 0 {
        assert(prefix[0] == bytes.subrange(0, prefix.len() as int)[0]);
        let width = length_of_first_scalar(prefix);
        assert(valid_first_scalar(prefix));
        assert(valid_first_scalar(bytes));
        assert(width == length_of_first_scalar(bytes));
        assert(width <= prefix.len());
        assert(pop_first_scalar(prefix) =~= pop_first_scalar(bytes).subrange(
            0,
            prefix.len() - width,
        ));
        lemma_prefix_ends_on_boundary(pop_first_scalar(bytes), pop_first_scalar(prefix));
    }
}

/// A string begins with another exactly when its encoding begins with the
/// encoding of the other.
pub proof fn lemma_prefix_of_encoding(prefix: Seq<char>, text: Seq<char>)
    ensures
        prefix.is_prefix_of(text) <==> encode_utf8(prefix).is_prefix_of(encode_utf8(text)),
{
    let prefix_bytes = encode_utf8(prefix);
    let text_bytes = encode_utf8(text);
    if prefix.is_prefix_of(text) {
        let rest = text.subrange(prefix.len() as int, text.len() as int);
        assert(text =~= prefix + rest);
        lemma_encode_concat(prefix, rest);
        assert(prefix_bytes.is_prefix_of(prefix_bytes + encode_utf8(rest)));
    }
    if prefix_bytes.is_prefix_of(text_bytes) {
        let cut = prefix_bytes.len() as int;
        encode_utf8_valid_utf8(prefix);
        encode_utf8_valid_utf8(text);
        lemma_prefix_ends_on_boundary(text_bytes, prefix_bytes);
        decode_utf8_split(text_bytes, cut);
        encode_utf8_decode_utf8(prefix);
        encode_utf8_decode_utf8(text);
        assert(text_bytes.subrange(0, cut) =~= prefix_bytes);
        let rest = decode_utf8(text_bytes.subrange(cut, text_bytes.len() as int));
        assert(text =~= prefix + rest);
        assert(prefix.is_prefix_of(prefix + rest));
    }
}

/// Whether `text` begins with `prefix`, character by character as they stand.
pub fn starts_with(text: &str, prefix: &str) -> (found: bool)
    ensures
        found == prefix@.is_prefix_of(text@),
{
    let text_bytes = text.as_bytes();
    let prefix_bytes = prefix.as_bytes();
    proof {
        lemma_prefix_of_encoding(prefix@, text@);
    }
    if prefix_bytes.len() > text_bytes.len() {
        return false;
    }
    let mut i: usize = 0;
    while i < prefix_bytes.len()
        invariant
            i <= prefix_bytes@.len() <= text_bytes@.len(),
            prefix_bytes@ == prefix.spec_bytes(),
            text_bytes@ == text.spec_bytes(),
            prefix@.is_prefix_of(text@) <==> prefix_bytes@.is_prefix_of(text_bytes@),
            forall|j: int| 0 <= j < i ==> prefix_bytes@[j] == text_bytes@[j],
        decreases prefix_bytes@.len() - i,
    {
        if prefix_bytes[i] != text_bytes[i] {
            assert(text_bytes@.subrange(0, prefix_bytes@.len() as int)[i as int] == text_bytes@[i as int]);
            return false;
        }
        i += 1;
    }
    assert(prefix_bytes@ =~= text_bytes@.subrange(0, prefix_bytes@.len() as int));
    true
}

} // verus!
