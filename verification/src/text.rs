//! Header values as text.
//!
//! A header value is a string of bytes. A text can be stored as a header value
//! when it holds no control character; a header value can be read as text when
//! it is made of visible ASCII. This module says both over characters and
//! proves that the byte-wise rules of the `http` crate come to the same.

use crate::http_model::{all_value_bytes, all_visible_bytes, is_value_byte, is_visible_byte};
use vstd::prelude::*;
use vstd::utf8::*;

verus! {

/// A character that may stand in a header value: any character but the ASCII
/// control characters, of which only the tab is allowed.
pub open spec fn is_value_char(c: char) -> bool {
    (c as u32 >= 32 && c as u32 != 127) || c as u32 == 9
}

/// A visible ASCII character, a space or a tab.
pub open spec fn is_visible_char(c: char) -> bool {
    (32 <= c as u32 && (c as u32) < 127) || c as u32 == 9
}

/// The text can be stored as a header value.
pub open spec fn is_legal_value(text: Seq<char>) -> bool {
    forall|i: int| 0 <= i < text.len() ==> is_value_char(#[trigger] text[i])
}

/// The text is made of visible ASCII, spaces and tabs.
pub open spec fn is_visible_text(text: Seq<char>) -> bool {
    forall|i: int| 0 <= i < text.len() ==> is_visible_char(#[trigger] text[i])
}

/// The bytes, each taken as one character.
pub open spec fn bytes_as_text(bytes: Seq<u8>) -> Seq<char> {
    Seq::new(bytes.len(), |i: int| bytes[i] as char)
}

/// What a header value reads as: its text where all its bytes are visible,
/// nothing otherwise.
pub open spec fn visible_text(bytes: Seq<u8>) -> Option<Seq<char>> {
    if all_visible_bytes(bytes) {
        Some(bytes_as_text(bytes))
    } else {
        None
    }
}

/// A text put together from two can be stored exactly when both can.
pub proof fn lemma_legal_value_concat(a: Seq<char>, b: Seq<char>)
    ensures
        is_legal_value(a + b) <==> is_legal_value(a) && is_legal_value(b),
{
    if is_legal_value(a + b) {
        assert forall|i: int| 0 <= i < a.len() implies is_value_char(#[trigger] a[i]) by {
            assert(a[i] == (a + b)[i]);
        }
        assert forall|i: int| 0 <= i < b.len() implies is_value_char(#[trigger] b[i]) by {
            assert(b[i] == (a + b)[i + a.len()]);
        }
    }
    if is_legal_value(a) && is_legal_value(b) {
        assert forall|i: int| 0 <= i < (a + b).len() implies is_value_char(
            #[trigger] (a + b)[i],
        ) by {
            if i < a.len() {
                assert((a + b)[i] == a[i]);
            } else {
                assert((a + b)[i] == b[i - a.len()]);
            }
        }
    }
}

/// The code of a character is a number that fits its type, and an ASCII
/// character is the byte of its code.
pub proof fn lemma_char_code(c: char)
    ensures
        c as int == (c as u32) as int,
        0 <= c as int <= 0x10FFFF,
        (c as u32) < 0x80 <==> '\0' <= c <= '\u{7f}',
        (c as u32) < 0x80 ==> c as u8 == c as u32 && (c as u8) as char == c,
{
}

/// An ASCII character is encoded as itself; any other character is encoded in
/// two to four bytes, all of them above the ASCII range.
pub proof fn lemma_encode_scalar_bytes(c: char)
    ensures
        (c as u32) < 0x80 ==> encode_scalar(c as u32) == seq![c as u8],
        (c as u32) >= 0x80 ==> {
            &&& 2 <= encode_scalar(c as u32).len() <= 4
            &&& forall|i: int|
                0 <= i < encode_scalar(c as u32).len() ==> #[trigger] encode_scalar(c as u32)[i]
                    >= 0x80
        },
{
    let v = c as u32;
    if v < 0x80 {
        assert((v & 0x7F) as u8 == v as u8) by (bit_vector)
            requires
                v < 0x80,
        ;
        assert(encode_scalar(v) =~= seq![c as u8]);
    } else {
        assert(0xC0u8 | ((v >> 6) & 0x1F) as u8 >= 0x80) by (bit_vector);
        assert(0xE0u8 | ((v >> 12) & 0x0F) as u8 >= 0x80) by (bit_vector);
        assert(0xF0u8 | ((v >> 18) & 0x7) as u8 >= 0x80) by (bit_vector);
        assert(0x80u8 | (v & 0x3F) as u8 >= 0x80) by (bit_vector);
        assert(0x80u8 | ((v >> 6) & 0x3F) as u8 >= 0x80) by (bit_vector);
        assert(0x80u8 | ((v >> 12) & 0x3F) as u8 >= 0x80) by (bit_vector);
    }
}

/// The `http` crate accepts the bytes of a text as a header value exactly
/// when the text holds no control character but tabs.
pub proof fn lemma_legal_value_bytes(text: Seq<char>)
    ensures
        all_value_bytes(encode_utf8(text)) <==> is_legal_value(text),
    decreases text.len(),
{
    if text.len() == 0 {
    } else {
        let head = encode_scalar(text[0] as u32);
        let rest = text.drop_first();
        let tail = encode_utf8(rest);
        lemma_char_code(text[0]);
        lemma_encode_scalar_bytes(text[0]);
        lemma_legal_value_bytes(rest);
        assert(encode_utf8(text) == head + tail);
        if is_legal_value(text) {
            assert(is_value_char(text[0]));
            assert forall|i: int| 0 <= i < rest.len() implies is_value_char(#[trigger] rest[i]) by {
                assert(rest[i] == text[i + 1]);
            }
            assert forall|i: int| 0 <= i < (head + tail).len() implies is_value_byte(
                #[trigger] (head + tail)[i],
            ) by {
                if i < head.len() {
                    assert((head + tail)[i] == head[i]);
                } else {
                    assert((head + tail)[i] == tail[i - head.len()]);
                }
            }
        }
        if all_value_bytes(encode_utf8(text)) {
            assert forall|i: int| 0 <= i < tail.len() implies is_value_byte(#[trigger] tail[i]) by {
                assert(tail[i] == (head + tail)[i + head.len()]);
            }
            assert(is_value_byte((head + tail)[0]));
            assert((head + tail)[0] == head[0]);
            assert forall|i: int| 0 <= i < text.len() implies is_value_char(#[trigger] text[i]) by {
                if i > 0 {
                    assert(text[i] == rest[i - 1]);
                }
            }
        }
    }
}

/// A text whose bytes are all visible is ASCII.
pub proof fn lemma_visible_bytes_ascii(text: Seq<char>)
    requires
        all_visible_bytes(encode_utf8(text)),
    ensures
        is_ascii_chars(text),
    decreases text.len(),
{
    if text.len() == 0 {
    } else {
        let head = encode_scalar(text[0] as u32);
        let rest = text.drop_first();
        let tail = encode_utf8(rest);
        lemma_char_code(text[0]);
        lemma_encode_scalar_bytes(text[0]);
        assert(encode_utf8(text) == head + tail);
        assert forall|i: int| 0 <= i < tail.len() implies is_visible_byte(#[trigger] tail[i]) by {
            assert(tail[i] == (head + tail)[i + head.len()]);
        }
        lemma_visible_bytes_ascii(rest);
        assert(is_visible_byte((head + tail)[0]));
        assert((head + tail)[0] == head[0]);
        assert forall|i: int| 0 <= i < text.len() implies '\0' <= #[trigger] text[i]
            <= '\u{7f}' by {
            if i > 0 {
                assert(text[i] == rest[i - 1]);
            }
        }
    }
}

/// A header value that reads as text reads as the text whose bytes it holds:
/// if the bytes of `text` are all visible, they read as `text` again.
pub proof fn lemma_visible_bytes_text(text: Seq<char>)
    requires
        all_visible_bytes(encode_utf8(text)),
    ensures
        visible_text(encode_utf8(text)) == Some(text),
        is_visible_text(text),
{
    lemma_visible_bytes_ascii(text);
    is_ascii_chars_encode_utf8(text);
    let bytes = encode_utf8(text);
    assert forall|i: int| 0 <= i < text.len() implies bytes_as_text(bytes)[i] == text[i]
        && is_visible_char(#[trigger] text[i]) by {
        let c = text[i];
        lemma_char_code(c);
        assert(c as u8 == bytes[i]);
        assert(is_visible_byte(bytes[i]));
        assert((c as u8) as char == c);
    }
    assert(bytes_as_text(bytes) =~= text);
}

/// A text of visible characters is stored byte for character, and reads back
/// as itself.
pub proof fn lemma_visible_text_bytes(text: Seq<char>)
    requires
        is_visible_text(text),
    ensures
        all_visible_bytes(encode_utf8(text)),
        visible_text(encode_utf8(text)) == Some(text),
        is_legal_value(text),
{
    assert forall|i: int| 0 <= i < text.len() implies '\0' <= #[trigger] text[i] <= '\u{7f}' by {
        lemma_char_code(text[i]);
        assert(is_visible_char(text[i]));
    }
    is_ascii_chars_encode_utf8(text);
    let bytes = encode_utf8(text);
    assert forall|i: int| 0 <= i < bytes.len() implies is_visible_byte(#[trigger] bytes[i]) by {
        lemma_char_code(text[i]);
        assert(is_visible_char(text[i]));
        assert(text[i] as u8 == bytes[i]);
    }
    lemma_visible_bytes_text(text);
    assert forall|i: int| 0 <= i < text.len() implies is_value_char(#[trigger] text[i]) by {
        assert(is_visible_char(text[i]));
    }
}

} // verus!
