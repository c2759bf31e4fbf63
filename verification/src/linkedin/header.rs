//! Which texts can stand as the value of an HTTP header.

use vstd::prelude::*;
use vstd::utf8::{
    encode_scalar, encode_utf8, has_width_1_encoding, has_width_2_encoding, has_width_3_encoding,
};

verus! {

/// Whether a header value may hold the byte `b`: a tab, or anything from the
/// space upwards but the delete character.
pub open spec fn header_byte_ok(b: u8) -> bool {
    b >= 32 && b != 127 || b == 9
}

/// Whether every one of `bytes` may stand in a header value.
pub open spec fn header_bytes_ok(bytes: Seq<u8>) -> bool {
    forall|i: int| 0 <= i < bytes.len() ==> header_byte_ok(#[trigger] bytes[i])
}

/// Whether a header value may hold the character `c`: any character but the
/// control characters of ASCII, the tab excepted.
pub open spec fn header_char_ok(c: char) -> bool {
    c as u32 >= 32 && c as u32 != 127 || c as u32 == 9
}

/// Whether `text` can stand as a header value: it holds no control character
/// of ASCII but, at most, tabs.
pub open spec fn header_text_ok(text: Seq<char>) -> bool {
    forall|i: int| 0 <= i < text.len() ==> header_char_ok(#[trigger] text[i])
}

/// Asks `reqwest::header::HeaderValue::from_str` whether it takes `value`.
/// Trusted: it does exactly when every byte of `value`, which is `value` in
/// UTF-8, is a tab or at least 32 and not 127.
#[verifier::external_body]
fn header_value_accepts(value: &str) -> (accepted: bool)
    ensures
        accepted == header_bytes_ok(encode_utf8(value@)),
{
    reqwest::header::HeaderValue::from_str(value).is_ok()
}

proof fn lemma_one_byte(s: u32)
    by (bit_vector)
    requires
        s <= 0x7F,
    ensures
        (s & 0x7F) as u8 == s,
{
}

proof fn lemma_marked_byte(mark: u8, bits: u8)
    by (bit_vector)
    requires
        mark >= 0x80,
    ensures
        mark | bits >= 0x80,
{
}

/// The bytes that encode a character may stand in a header value exactly
/// when the character may: beyond ASCII every byte is 128 or more.
proof fn lemma_scalar_bytes(c: char)
    ensures
        header_bytes_ok(encode_scalar(c as u32)) == header_char_ok(c),
{
    let s = c as u32;
    let bytes = encode_scalar(s);
    if has_width_1_encoding(s) {
        lemma_one_byte(s);
        assert(bytes[0] == s);
        if header_bytes_ok(bytes) {
            assert(header_byte_ok(bytes[0]));
        }
    } else {
        assert(header_char_ok(c));
        if has_width_2_encoding(s) {
            lemma_marked_byte(0xC0, ((s >> 6) & 0x1F) as u8);
            lemma_marked_byte(0x80, (s & 0x3F) as u8);
        } else if has_width_3_encoding(s) {
            lemma_marked_byte(0xE0, ((s >> 12) & 0x0F) as u8);
            lemma_marked_byte(0x80, ((s >> 6) & 0x3F) as u8);
            lemma_marked_byte(0x80, (s & 0x3F) as u8);
        } else {
            lemma_marked_byte(0xF0, ((s >> 18) & 0x7) as u8);
            lemma_marked_byte(0x80, ((s >> 12) & 0x3F) as u8);
            lemma_marked_byte(0x80, ((s >> 6) & 0x3F) as u8);
            lemma_marked_byte(0x80, (s & 0x3F) as u8);
        }
        assert forall|i: int| 0 <= i < bytes.len() implies header_byte_ok(#[trigger] bytes[i]) by {
            assert(bytes[i] >= 0x80);
        }
    }
}

/// A text in UTF-8 is made of bytes that may stand in a header value exactly
/// when it is made of characters that may.
pub proof fn lemma_header_text_in_bytes(text: Seq<char>)
    ensures
        header_bytes_ok(encode_utf8(text)) == header_text_ok(text),
    decreases text.len(),
{
    if text.len() > 0 {
        let head = encode_scalar(text[0] as u32);
        let tail = encode_utf8(text.drop_first());
        let bytes = encode_utf8(text);
        assert(bytes == head + tail);
        lemma_scalar_bytes(text[0]);
        lemma_header_text_in_bytes(text.drop_first());
        if header_bytes_ok(bytes) {
            assert forall|i: int| 0 <= i < head.len() implies header_byte_ok(#[trigger] head[i]) by {
                assert(bytes[i] == head[i]);
            }
            assert forall|i: int| 0 <= i < tail.len() implies header_byte_ok(#[trigger] tail[i]) by {
                assert(bytes[head.len() + i] == tail[i]);
            }
            assert forall|i: int| 0 <= i < text.len() implies header_char_ok(#[trigger] text[i]) by {
                if i > 0 {
                    assert(text.drop_first()[i - 1] == text[i]);
                }
            }
        }
        if header_text_ok(text) {
            assert(header_char_ok(text[0]));
            assert forall|i: int| 0 <= i < text.drop_first().len() implies header_char_ok(
                #[trigger] text.drop_first()[i],
            ) by {
                assert(text.drop_first()[i] == text[i + 1]);
            }
            assert forall|i: int| 0 <= i < bytes.len() implies header_byte_ok(#[trigger] bytes[i]) by {
                if i < head.len() {
                    assert(bytes[i] == head[i]);
                } else {
                    assert(bytes[i] == tail[i - head.len()]);
                }
            }
        }
    }
}

/// Two texts joined can stand as a header value exactly when each of them
/// can.
pub proof fn lemma_header_text_joined(head: Seq<char>, tail: Seq<char>)
    ensures
        header_text_ok(head + tail) == (header_text_ok(head) && header_text_ok(tail)),
{
    let whole = head + tail;
    if header_text_ok(whole) {
        assert forall|i: int| 0 <= i < head.len() implies header_char_ok(#[trigger] head[i]) by {
            assert(whole[i] == head[i]);
        }
        assert forall|i: int| 0 <= i < tail.len() implies header_char_ok(#[trigger] tail[i]) by {
            assert(whole[head.len() + i] == tail[i]);
        }
    }
    if header_text_ok(head) && header_text_ok(tail) {
        assert forall|i: int| 0 <= i < whole.len() implies header_char_ok(#[trigger] whole[i]) by {
            if i < head.len() {
                assert(whole[i] == head[i]);
            } else {
                assert(whole[i] == tail[i - head.len()]);
            }
        }
    }
}

/// Whether `value` can stand as a header value.
pub fn accepts(value: &str) -> (accepted: bool)
    ensures
        accepted == header_text_ok(value@),
{
    proof {
        lemma_header_text_in_bytes(value@);
    }
    header_value_accepts(value)
}

} // verus!
