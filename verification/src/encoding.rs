//! Strings as they cross the boundary to the host.
//!
//! On the plugin's side every string is UTF-8 and knows its length. On the
//! host's side a string is a byte buffer that ends with a zero byte. This
//! module builds such buffers and proves what the host reads from them.
use vstd::prelude::*;
use vstd::string::StrSliceExecFns;
use vstd::utf8::{decode_utf8, encode_scalar, encode_utf8, valid_utf8};

verus! {

/// The characters of an optional string slice.
pub open spec fn text_of(text: Option<&str>) -> Option<Seq<char>> {
    match text {
        Some(s) => Some(s@),
        None => None,
    }
}

/// A string as it is handed to the host: its UTF-8 bytes, then one zero
/// byte.
pub open spec fn c_string(text: Seq<char>) -> Seq<u8> {
    encode_utf8(text).push(0u8)
}

/// How far the host reads into a buffer: the number of bytes before the
/// first zero byte, or all of them if there is none.
pub open spec fn c_strlen(buffer: Seq<u8>) -> nat
    decreases buffer.len(),
{
    if buffer.len() == 0 || buffer[0] == 0u8 {
        0
    } else {
        1 + c_strlen(buffer.drop_first())
    }
}

/// Whether a text holds the character U+0000.
pub open spec fn has_nul(text: Seq<char>) -> bool {
    exists|i: int| 0 <= i < text.len() && text[i] as u32 == 0u32
}

/// Builds the buffer that is handed to the host for `text`.
pub fn c_string_bytes(text: &str) -> (buffer: Vec<u8>)
    ensures
        buffer@ == c_string(text@),
{
    let mut buffer = text.as_bytes_vec();
    buffer.push(0u8);
    buffer
}

/// The buffer for a text is the text's UTF-8 bytes and one zero byte after
/// them, and the bytes before that zero decode to the text again. Nothing
/// is added, dropped or replaced on the way to the host.
pub proof fn c_string_holds_text(text: Seq<char>)
    ensures
        c_string(text).len() == encode_utf8(text).len() + 1,
        c_string(text).last() == 0u8,
        c_string(text).drop_last() == encode_utf8(text),
        valid_utf8(c_string(text).drop_last()),
        decode_utf8(c_string(text).drop_last()) == text,
{
    assert(c_string(text).drop_last() =~= encode_utf8(text));
    vstd::utf8::encode_utf8_valid_utf8(text);
    vstd::utf8::encode_utf8_decode_utf8(text);
}

/// Two texts with the same buffer are the same text.
pub proof fn c_string_is_injective(first: Seq<char>, second: Seq<char>)
    requires
        c_string(first) == c_string(second),
    ensures
        first == second,
{
    c_string_holds_text(first);
    c_string_holds_text(second);
}

/// The host stops at the first zero byte: there is none before the place
/// where it stops, and unless it has read the whole buffer there is one at
/// that place.
pub proof fn c_strlen_is_first_zero(buffer: Seq<u8>)
    ensures
        c_strlen(buffer) <= buffer.len(),
        forall|i: int| 0 <= i < c_strlen(buffer) ==> buffer[i] != 0u8,
        c_strlen(buffer) < buffer.len() ==> buffer[c_strlen(buffer) as int] == 0u8,
    decreases buffer.len(),
{
    if buffer.len() != 0 && buffer[0] != 0u8 {
        let rest = buffer.drop_first();
        c_strlen_is_first_zero(rest);
        assert forall|i: int| 0 <= i < c_strlen(buffer) implies buffer[i] != 0u8 by {
            if i > 0 {
                assert(buffer[i] == rest[i - 1]);
            }
        }
        if c_strlen(buffer) < buffer.len() {
            assert(buffer[c_strlen(buffer) as int] == rest[c_strlen(rest) as int]);
        }
    }
}

proof fn one_byte_is_zero_for_nul_only(scalar: u32)
    by (bit_vector)
    requires
        scalar <= 0x7F,
    ensures
        ((scalar & 0x7F) as u8 == 0u8) <==> scalar == 0,
{
}

proof fn bytes_of_wider_scalars_are_not_zero(scalar: u32)
    by (bit_vector)
    ensures
        0xC0u8 | ((scalar >> 6) & 0x1F) as u8 != 0u8,
        0xE0u8 | ((scalar >> 12) & 0x0F) as u8 != 0u8,
        0xF0u8 | ((scalar >> 18) & 0x7) as u8 != 0u8,
        0x80u8 | (scalar & 0x3F) as u8 != 0u8,
        0x80u8 | ((scalar >> 6) & 0x3F) as u8 != 0u8,
        0x80u8 | ((scalar >> 12) & 0x3F) as u8 != 0u8,
{
}

/// The encoding of one character holds a zero byte only if the character is
/// U+0000, and is then that one byte.
proof fn scalar_has_zero_byte_for_nul_only(scalar: u32)
    ensures
        scalar == 0 ==> encode_scalar(scalar) == seq![0u8],
        scalar != 0 ==> forall|i: int|
            0 <= i < encode_scalar(scalar).len() ==> encode_scalar(scalar)[i] != 0u8,
        encode_scalar(scalar).len() >= 1,
{
    bytes_of_wider_scalars_are_not_zero(scalar);
    if scalar <= 0x7F {
        one_byte_is_zero_for_nul_only(scalar);
    }
    if scalar == 0 {
        assert(encode_scalar(scalar) =~= seq![0u8]);
    }
}

/// The UTF-8 bytes of a text hold a zero byte exactly if the text holds the
/// character U+0000.
pub proof fn encoding_has_zero_byte_for_nul_only(text: Seq<char>)
    ensures
        has_nul(text) <==> exists|i: int|
            0 <= i < encode_utf8(text).len() && encode_utf8(text)[i] == 0u8,
    decreases text.len(),
{
    let bytes = encode_utf8(text);
    if text.len() > 0 {
        let head = encode_scalar(text[0] as u32);
        let rest = text.drop_first();
        let tail = encode_utf8(rest);
        scalar_has_zero_byte_for_nul_only(text[0] as u32);
        encoding_has_zero_byte_for_nul_only(rest);
        assert(bytes == head + tail);
        if has_nul(text) {
            let i = choose|i: int| 0 <= i < text.len() && text[i] as u32 == 0u32;
            if i == 0 {
                assert(bytes[0] == 0u8);
            } else {
                assert(rest[i - 1] == text[i]);
                assert(has_nul(rest));
                let j = choose|j: int| 0 <= j < tail.len() && tail[j] == 0u8;
                assert(bytes[head.len() + j] == tail[j]);
            }
        }
        if exists|i: int| 0 <= i < bytes.len() && bytes[i] == 0u8 {
            let i = choose|i: int| 0 <= i < bytes.len() && bytes[i] == 0u8;
            if i < head.len() {
                assert(bytes[i] == head[i]);
                assert(text[0] as u32 == 0u32);
            } else {
                assert(bytes[i] == tail[i - head.len()]);
                assert(has_nul(rest));
                let j = choose|j: int| 0 <= j < rest.len() && rest[j] as u32 == 0u32;
                assert(text[j + 1] == rest[j]);
            }
        }
    }
}

/// The host reads the whole text, byte for byte, exactly if the text holds
/// no character U+0000. Of a text that holds one it reads less: the bytes
/// before the first such character.
pub proof fn host_reads_text_without_nul(text: Seq<char>)
    ensures
        c_strlen(c_string(text)) <= encode_utf8(text).len(),
        has_nul(text) <==> c_strlen(c_string(text)) < encode_utf8(text).len(),
        !has_nul(text) ==> c_string(text).take(c_strlen(c_string(text)) as int) == encode_utf8(
            text,
        ),
{
    let bytes = encode_utf8(text);
    let buffer = c_string(text);
    let end = c_strlen(buffer) as int;
    encoding_has_zero_byte_for_nul_only(text);
    c_strlen_is_first_zero(buffer);
    assert(buffer[bytes.len() as int] == 0u8);
    if has_nul(text) {
        let zero = choose|i: int| 0 <= i < bytes.len() && bytes[i] == 0u8;
        assert(buffer[zero] == bytes[zero]);
    }
    if end < bytes.len() {
        assert(buffer[end] == bytes[end]);
    } else {
        assert(buffer.take(end) =~= bytes);
    }
}

} // verus!
