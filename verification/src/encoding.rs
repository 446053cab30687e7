//! UTF-8 and the zero byte.
//!
//! A NUL-terminated string can carry exactly the text whose encoding holds no
//! zero byte. In UTF-8 that is the text without the character U+0000: every
//! other character is encoded in bytes that are all different from zero.

use vstd::prelude::*;
use vstd::utf8::{
    char_is_scalar, char_u32_cast, encode_scalar, encode_utf8, has_width_1_encoding, is_scalar,
};

verus! {

/// A byte with its highest bit set is not zero, whatever its other bits are.
proof fn lemma_marked_byte_is_not_zero(low: u8)
    ensures
        0x80u8 | low != 0,
        0xC0u8 | low != 0,
        0xE0u8 | low != 0,
        0xF0u8 | low != 0,
{
    assert(0x80u8 | low != 0) by (bit_vector);
    assert(0xC0u8 | low != 0) by (bit_vector);
    assert(0xE0u8 | low != 0) by (bit_vector);
    assert(0xF0u8 | low != 0) by (bit_vector);
}

/// The encoding of one scalar value holds a zero byte only if the value is
/// zero itself.
proof fn lemma_scalar_encoding_zero(scalar: u32)
    requires
        is_scalar(scalar),
    ensures
        encode_scalar(scalar).contains(0u8) <==> scalar == 0,
{
    let bytes = encode_scalar(scalar);
    if has_width_1_encoding(scalar) {
        assert((scalar & 0x7F) as u8 == 0 <==> scalar == 0) by (bit_vector)
            requires
                scalar <= 0x7F,
        ;
        assert(bytes[0] == 0 <==> scalar == 0);
    } else {
        lemma_marked_byte_is_not_zero(((scalar >> 6) & 0x1F) as u8);
        lemma_marked_byte_is_not_zero(((scalar >> 12) & 0x0F) as u8);
        lemma_marked_byte_is_not_zero(((scalar >> 18) & 0x7) as u8);
        lemma_marked_byte_is_not_zero((scalar & 0x3F) as u8);
        lemma_marked_byte_is_not_zero(((scalar >> 6) & 0x3F) as u8);
        lemma_marked_byte_is_not_zero(((scalar >> 12) & 0x3F) as u8);
        assert(forall|i: int| 0 <= i < bytes.len() ==> bytes[i] != 0);
    }
}

/// The UTF-8 encoding of a text holds a zero byte exactly when the text holds
/// the character U+0000.
pub proof fn lemma_encoding_zero_iff_nul(text: Seq<char>)
    ensures
        encode_utf8(text).contains(0u8) <==> text.contains('\0'),
    decreases text.len(),
{
    if text.len() > 0 {
        let head = encode_scalar(text[0] as u32);
        let rest = text.drop_first();
        let tail = encode_utf8(rest);
        lemma_encoding_zero_iff_nul(rest);
        char_is_scalar(text[0]);
        lemma_scalar_encoding_zero(text[0] as u32);
        assert(text[0] as u32 == 0 <==> text[0] == '\0') by {
            assert('\0' as u32 == 0);
            char_u32_cast(text[0], text[0] as u32);
            char_u32_cast('\0', 0u32);
        }
        assert(encode_utf8(text) == head + tail);
        if text.contains('\0') {
            let i = choose|i: int| 0 <= i < text.len() && text[i] == '\0';
            if i == 0 {
                let j = choose|j: int| 0 <= j < head.len() && head[j] == 0u8;
                assert((head + tail)[j] == 0u8);
            } else {
                assert(rest[i - 1] == '\0');
                let j = choose|j: int| 0 <= j < tail.len() && tail[j] == 0u8;
                assert((head + tail)[head.len() + j] == 0u8);
            }
        }
        if (head + tail).contains(0u8) {
            let j = choose|j: int| 0 <= j < (head + tail).len() && (head + tail)[j] == 0u8;
            if j < head.len() {
                assert(head[j] == 0u8);
                assert(text[0] == '\0');
            } else {
                assert(tail[j - head.len()] == 0u8);
                let i = choose|i: int| 0 <= i < rest.len() && rest[i] == '\0';
                assert(text[i + 1] == '\0');
            }
        }
    }
}

} // verus!
