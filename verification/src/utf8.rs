//! UTF-8 as the machine reads and writes it: one character at a time.

use vstd::prelude::*;
use vstd::utf8::{
    char_is_scalar, decode_first_codepoint, decode_first_scalar, decode_utf8, encode_scalar,
    is_continuation_byte, is_scalar, valid_first_scalar, valid_utf8,
};

verus! {

/// The character reported for input that is not well-formed UTF-8.
pub const REPLACEMENT: char = '\u{FFFD}';

/// Number of bytes that a UTF-8 sequence starting with `first` occupies,
/// or 0 when `first` cannot start a sequence.
pub open spec fn utf8_width(first: u8) -> nat {
    if first <= 0x7f {
        1
    } else if first <= 0xbf {
        0
    } else if first <= 0xdf {
        2
    } else if first <= 0xef {
        3
    } else if first <= 0xf7 {
        4
    } else {
        0
    }
}

pub fn utf8_char_width(first_byte: u8) -> (w: usize)
    ensures
        w == utf8_width(first_byte),
{
    if first_byte <= 0x7f {
        1
    } else if first_byte <= 0xbf {
        0
    } else if first_byte <= 0xdf {
        2
    } else if first_byte <= 0xef {
        3
    } else if first_byte <= 0xf7 {
        4
    } else {
        0
    }
}

/// `char::from_u32`: a character exactly for the Unicode scalar values, and
/// then the one with that value.
#[verifier::external_body]
fn char_from_u32(v: u32) -> (r: Option<char>)
    ensures
        r == (if is_scalar(v) {
            Some(v as char)
        } else {
            None
        }),
{
    char::from_u32(v)
}

/// What a multi-byte sequence decodes to: its character when the bytes are
/// the well-formed encoding of one scalar value.
pub open spec fn decoded(seq: Seq<u8>) -> Option<char> {
    if valid_first_scalar(seq) {
        Some(decode_first_scalar(seq) as char)
    } else {
        None
    }
}

fn is_cont(b: u8) -> (r: bool)
    ensures
        r == is_continuation_byte(b),
{
    0x80 <= b && b <= 0xbf
}

pub(crate) fn decode_multibyte(b: &[u8]) -> (r: Option<char>)
    requires
        2 <= b@.len() <= 4,
        utf8_width(b@[0]) == b@.len(),
    ensures
        r == decoded(b@),
{
    let n = b.len();
    let b0 = b[0];
    let b1 = b[1];
    if !is_cont(b1) {
        return None;
    }
    let cp: u32 = if n == 2 {
        (((b0 & 0x1F) as u32) << 6) | ((b1 & 0x3f) as u32)
    } else {
        let b2 = b[2];
        if !is_cont(b2) {
            return None;
        }
        if n == 3 {
            (((b0 & 0x0F) as u32) << 12) | (((b1 & 0x3f) as u32) << 6) | ((b2 & 0x3f) as u32)
        } else {
            let b3 = b[3];
            if !is_cont(b3) {
                return None;
            }
            (((b0 & 0x07) as u32) << 18) | (((b1 & 0x3f) as u32) << 12) | (((b2 & 0x3f) as u32)
                << 6) | ((b3 & 0x3f) as u32)
        }
    };
    proof {
        if n == 2 {
            assert((((b0 & 0x1F) as u32) << 6) | ((b1 & 0x3f) as u32) <= 0x7ff) by (bit_vector);
        } else if n == 3 {
            let b2 = b@[2];
            assert((((b0 & 0x0F) as u32) << 12) | (((b1 & 0x3f) as u32) << 6) | ((b2 & 0x3f) as u32)
                <= 0xffff) by (bit_vector);
        }
    }
    if n == 2 && cp < 0x80 {
        return None;
    }
    if n == 3 && (cp < 0x800 || (0xD800 <= cp && cp <= 0xDFFF)) {
        return None;
    }
    if n == 4 && (cp < 0x10000 || cp > 0x10ffff) {
        return None;
    }
    char_from_u32(cp)
}

/// Appends the UTF-8 encoding of `c` to `out`.
pub fn encode_char(c: char, out: &mut Vec<u8>)
    ensures
        final(out)@ == old(out)@ + encode_scalar(c as u32),
{
    let v = c as u32;
    proof {
        char_is_scalar(c);
    }
    if v <= 0x7F {
        out.push((v & 0x7F) as u8);
    } else if v <= 0x7FF {
        out.push(0xC0 | ((v >> 6) & 0x1F) as u8);
        out.push(0x80 | (v & 0x3F) as u8);
    } else if v <= 0xFFFF {
        out.push(0xE0 | ((v >> 12) & 0x0F) as u8);
        out.push(0x80 | ((v >> 6) & 0x3F) as u8);
        out.push(0x80 | (v & 0x3F) as u8);
    } else {
        out.push(0xF0 | ((v >> 18) & 0x7) as u8);
        out.push(0x80 | ((v >> 12) & 0x3F) as u8);
        out.push(0x80 | ((v >> 6) & 0x3F) as u8);
        out.push(0x80 | (v & 0x3F) as u8);
    }
}

/// What `String::from_utf8_lossy` makes of `bytes`.
pub uninterp spec fn lossy_text(bytes: Seq<u8>) -> Seq<char>;

/// `String::from_utf8`: the text that `bytes` encode if they are
/// well-formed UTF-8; the bytes themselves if they are not.
#[verifier::external_body]
pub(crate) fn string_from_utf8(bytes: Vec<u8>) -> (r: Result<String, Vec<u8>>)
    ensures
        match r {
            Ok(s) => valid_utf8(bytes@) && s@ == decode_utf8(bytes@),
            Err(raw) => !valid_utf8(bytes@) && raw@ == bytes@,
        },
{
    match String::from_utf8(bytes) {
        Ok(s) => Ok(s),
        Err(e) => Err(e.into_bytes()),
    }
}

/// `String::from_utf8_lossy`: text for any bytes, with U+FFFD in the place
/// of what is not well-formed UTF-8.
#[verifier::external_body]
fn string_from_utf8_lossy(bytes: &[u8]) -> (s: String)
    ensures
        s@ == lossy_text(bytes@),
{
    String::from_utf8_lossy(bytes).into_owned()
}

/// The text that `bytes` stand for.
pub open spec fn text_of(bytes: Seq<u8>) -> Seq<char> {
    if valid_utf8(bytes) {
        decode_utf8(bytes)
    } else {
        lossy_text(bytes)
    }
}

/// The text for `bytes`.
pub fn text_from(bytes: Vec<u8>) -> (s: String)
    ensures
        s@ == text_of(bytes@),
{
    match string_from_utf8(bytes) {
        Ok(s) => s,
        Err(raw) => string_from_utf8_lossy(raw.as_slice()),
    }
}

} // verus!
