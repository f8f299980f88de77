//! Text encoding for script code: strings to UTF-8 bytes and back.

use vstd::prelude::*;
use vstd::slice::slice_subrange;
use vstd::std_specs::iter::IteratorSpec;
use vstd::string::*;
use vstd::utf8::{decode_utf8, encode_scalar, encode_utf8, valid_utf8};
use crate::buffer::Uint8Array;
use crate::error::BindingError;
use crate::value::{argument, get_argument, ScriptValue};

verus! {

/// The bytes begin with the UTF-8 form of the byte-order mark.
pub open spec fn has_bom(bytes: Seq<u8>) -> bool {
    bytes.len() >= 3 && bytes[0] == 0xef && bytes[1] == 0xbb && bytes[2] == 0xbf
}

/// The bytes without a leading byte-order mark.
pub open spec fn without_bom(bytes: Seq<u8>) -> Seq<u8> {
    if has_bom(bytes) {
        bytes.subrange(3, bytes.len() as int)
    } else {
        bytes
    }
}

/// Drops a leading byte-order mark.
pub fn strip_bom<'a>(bytes: &'a [u8]) -> (rest: &'a [u8])
    ensures
        rest@ == without_bom(bytes@),
{
    if bytes.len() >= 3 && bytes[0] == 0xef && bytes[1] == 0xbb && bytes[2] == 0xbf {
        slice_subrange(bytes, 3, bytes.len())
    } else {
        bytes
    }
}

/// What `String::from_utf8_lossy` makes of bytes that are not valid UTF-8:
/// the text with a replacement character for each malformed part.
pub uninterp spec fn replaced_text(bytes: Seq<u8>) -> Seq<char>;

/// The text that a buffer of bytes decodes to.
pub open spec fn decoded_text(bytes: Seq<u8>) -> Seq<char> {
    if valid_utf8(bytes) {
        decode_utf8(bytes)
    } else {
        replaced_text(bytes)
    }
}

/// Calls `String::from_utf8_lossy`.
///
/// Trusted: valid UTF-8 decodes to the text that it encodes; of other bytes
/// only that the same bytes always give the same text.
#[verifier::external_body]
fn decode_lossy(bytes: &[u8]) -> (text: String)
    ensures
        valid_utf8(bytes@) ==> text@ == decode_utf8(bytes@),
        !valid_utf8(bytes@) ==> text@ == replaced_text(bytes@),
{
    String::from_utf8_lossy(bytes).into_owned()
}

/// Number of UTF-16 code units that the engine needs for a character.
pub open spec fn utf16_units(c: char) -> nat {
    if (c as u32) < 0x10000 {
        1
    } else {
        2
    }
}

/// Length of a text in the engine, which counts UTF-16 code units.
pub open spec fn utf16_len(text: Seq<char>) -> nat
    decreases text.len(),
{
    if text.len() == 0 {
        0
    } else {
        utf16_units(text[0]) + utf16_len(text.drop_first())
    }
}

/// Whether a text is longer than `max_length` code units.
pub fn exceeds_length(text: &str, max_length: usize) -> (longer: bool)
    ensures
        longer == (utf16_len(text@) > max_length),
{
    broadcast use vstd::string::group_string_axioms;

    let mut chars = text.chars();
    let mut budget: usize = max_length;
    loop
        invariant
            chars.obeys_prophetic_iter_laws(),
            chars.decrease() is Some,
            budget <= max_length,
            utf16_len(text@) == (max_length - budget) + utf16_len(chars.remaining()),
        decreases chars.decrease()->0,
    {
        let ghost before = chars.remaining();
        match chars.next() {
            Some(c) => {
                let units: usize = if (c as u32) < 0x10000 {
                    1
                } else {
                    2
                };
                assert(units == utf16_units(before[0]));
                assert(utf16_len(before) == units + utf16_len(before.drop_first()));
                if units > budget {
                    return true;
                }
                budget = budget - units;
            },
            None => {
                assert(utf16_len(before) == 0);
                return false;
            },
        }
    }
}

/// The bytes that encoding hands to script code.
pub open spec fn encoded(args: Seq<ScriptValue>) -> Result<Seq<u8>, BindingError> {
    match argument(args, 0) {
        ScriptValue::Text(text) => Ok(encode_utf8(text@)),
        _ => Err(BindingError::InvalidArgument),
    }
}

/// Encodes the text in the first argument as UTF-8. The bytes of the text
/// become the buffer of the array; the empty text gives an empty array.
pub fn encode(args: &Vec<ScriptValue>) -> (array: Result<Uint8Array, BindingError>)
    ensures
        match encoded(args@) {
            Ok(bytes) => array matches Ok(a) && a@ == bytes,
            Err(error) => array == Err::<Uint8Array, BindingError>(error),
        },
{
    match get_argument(args, 0) {
        Some(ScriptValue::Text(text)) => {
            let text_bytes = text.as_str().as_bytes_vec();
            if text_bytes.len() == 0 {
                Ok(Uint8Array::empty())
            } else {
                Ok(Uint8Array::from_vec(text_bytes))
            }
        },
        _ => Err(BindingError::InvalidArgument),
    }
}

/// The text that `bytes` decode to after a leading byte-order mark is
/// dropped, or the error for a text that the engine's strings cannot hold.
pub open spec fn decoded(bytes: Seq<u8>, max_string_length: usize) -> Result<
    Seq<char>,
    BindingError,
> {
    let text = decoded_text(without_bom(bytes));
    if utf16_len(text) > max_string_length {
        Err(BindingError::StringTooLong)
    } else {
        Ok(text)
    }
}

/// Decodes the byte view in the first argument as UTF-8, without a leading
/// byte-order mark. `max_string_length` is the longest string, in UTF-16 code
/// units, that the engine holds.
pub fn decode(args: &Vec<ScriptValue>, max_string_length: usize) -> (text: Result<
    String,
    BindingError,
>)
    ensures
        match argument(args@, 0) {
            ScriptValue::BufferView(view) => match decoded(view@, max_string_length) {
                Ok(chars) => text matches Ok(t) && t@ == chars,
                Err(error) => text == Err::<String, BindingError>(error),
            },
            _ => text == Err::<String, BindingError>(BindingError::InvalidArgument),
        },
{
    match get_argument(args, 0) {
        Some(ScriptValue::BufferView(view)) => {
            let buf = strip_bom(view.as_slice());
            let text = decode_lossy(buf);
            if exceeds_length(text.as_str(), max_string_length) {
                Err(BindingError::StringTooLong)
            } else {
                Ok(text)
            }
        },
        _ => Err(BindingError::InvalidArgument),
    }
}

/// The UTF-8 form of the byte-order mark.
pub open spec fn bom() -> Seq<u8> {
    seq![0xefu8, 0xbbu8, 0xbfu8]
}

proof fn one_byte_form_is_below_the_mark(c: u32)
    by (bit_vector)
    requires
        c <= 0x7F,
    ensures
        (c & 0x7F) as u8 != 0xef,
{
}

proof fn two_byte_form_leads_below_the_mark(c: u32)
    by (bit_vector)
    requires
        0x80 <= c <= 0x7FF,
    ensures
        (0xC0 | ((c >> 6) & 0x1F) as u8) != 0xef,
{
}

proof fn four_byte_form_leads_above_the_mark(c: u32)
    by (bit_vector)
    requires
        0x10000 <= c <= 0x10FFFF,
    ensures
        (0xF0 | ((c >> 18) & 0x7) as u8) != 0xef,
{
}

proof fn three_byte_mark_is_one_scalar(c: u32)
    by (bit_vector)
    requires
        0x800 <= c <= 0xFFFF,
        (0xE0 | ((c >> 12) & 0x0F) as u8) == 0xef,
        (0x80 | ((c >> 6) & 0x3F) as u8) == 0xbb,
        (0x80 | (c & 0x3F) as u8) == 0xbf,
    ensures
        c == 0xFEFF,
{
}

/// A scalar whose encoding begins with the first byte of the mark has three
/// bytes, and if the other two are those of the mark it is U+FEFF.
proof fn scalar_behind_the_mark(c: u32)
    requires
        vstd::utf8::is_scalar(c),
        encode_scalar(c)[0] == 0xef,
    ensures
        vstd::utf8::has_width_3_encoding(c),
        encode_scalar(c).len() == 3,
        encode_scalar(c)[1] == 0xbb && encode_scalar(c)[2] == 0xbf ==> c == 0xFEFF,
{
    if vstd::utf8::has_width_1_encoding(c) {
        one_byte_form_is_below_the_mark(c);
    } else if vstd::utf8::has_width_2_encoding(c) {
        two_byte_form_leads_below_the_mark(c);
    } else if vstd::utf8::has_width_3_encoding(c) {
        if encode_scalar(c)[1] == 0xbb && encode_scalar(c)[2] == 0xbf {
            three_byte_mark_is_one_scalar(c);
        }
    } else {
        four_byte_form_leads_above_the_mark(c);
    }
}

/// Only a text that begins with the byte-order mark character encodes to
/// bytes that begin with the mark.
pub proof fn encoded_bom_is_the_mark(text: Seq<char>)
    requires
        has_bom(encode_utf8(text)),
    ensures
        text.len() > 0,
        text[0] == '\u{feff}',
{
    if text.len() > 0 {
        let c = text[0] as u32;
        let head = encode_scalar(c);
        let bytes = encode_utf8(text);
        assert(bytes == head + encode_utf8(text.drop_first()));
        vstd::utf8::char_is_scalar(text[0]);
        assert(head.len() >= 1);
        assert(bytes[0] == head[0]);
        scalar_behind_the_mark(c);
        assert(bytes[1] == head[1]);
        assert(bytes[2] == head[2]);
        vstd::utf8::char_u32_cast(text[0], c);
        vstd::utf8::char_u32_cast('\u{feff}', 0xFEFFu32);
    }
}

/// What decoding makes of a text that was encoded, for every text and every
/// limit: the text itself where the engine's strings can hold it, and the
/// error for a text that is too long where they cannot.
pub open spec fn round_trip(text: Seq<char>, max_string_length: usize) -> Result<
    Seq<char>,
    BindingError,
> {
    if utf16_len(text) <= max_string_length {
        Ok(text)
    } else {
        Err(BindingError::StringTooLong)
    }
}

/// Decoding inverts encoding: a text that does not begin with the byte-order
/// mark character comes back as it was, code unit for code unit. The one
/// text that does not come back is one longer than the engine's longest
/// string, which no string of the engine is.
pub proof fn decode_inverts_encode(text: Seq<char>, max_string_length: usize)
    requires
        text.len() > 0 ==> text[0] != '\u{feff}',
    ensures
        decoded(encode_utf8(text), max_string_length) == round_trip(text, max_string_length),
        utf16_len(text) <= max_string_length ==> decoded(encode_utf8(text), max_string_length)
            == Ok::<Seq<char>, BindingError>(text),
{
    broadcast use vstd::utf8::encode_utf8_valid_utf8, vstd::utf8::encode_utf8_decode_utf8;

    if has_bom(encode_utf8(text)) {
        encoded_bom_is_the_mark(text);
    }
}

/// A byte-order mark in front of encoded text is dropped, once, whatever the
/// text is: the bytes after the mark decode to the text.
pub proof fn decode_strips_one_mark(text: Seq<char>, max_string_length: usize)
    ensures
        decoded(bom() + encode_utf8(text), max_string_length) == round_trip(
            text,
            max_string_length,
        ),
{
    broadcast use vstd::utf8::encode_utf8_valid_utf8, vstd::utf8::encode_utf8_decode_utf8;

    let bytes = bom() + encode_utf8(text);
    assert(has_bom(bytes));
    assert(without_bom(bytes) =~= encode_utf8(text));
}

} // verus!
