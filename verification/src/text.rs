//! UCS-2 text, as UEFI hands it out, turned into Rust strings.

use vstd::prelude::*;
use vstd::utf8::*;

use crate::error::{Error, InnerError, Result, Ucs2ErrorKind, WithContext};

verus! {

/// The bytes that the UCS-2 decoder writes for one 16-bit code unit: one
/// byte below 0x80, two below 0x800, three otherwise (surrogates included).
pub open spec fn ucs2_unit_utf8(c: u16) -> Seq<u8> {
    if c < 0x80 {
        seq![c as u8]
    } else if c < 0x800 {
        seq![(0xC0 + ((c >> 6u16) & 0x1F)) as u8, (0x80 + (c & 0x3F)) as u8]
    } else {
        seq![
            (0xE0 + (c >> 12u16)) as u8,
            (0x80 + ((c >> 6u16) & 0x3F)) as u8,
            (0x80 + (c & 0x3F)) as u8,
        ]
    }
}

/// The bytes that the UCS-2 decoder writes for a whole string of code units.
pub open spec fn ucs2_utf8(units: Seq<u16>) -> Seq<u8>
    decreases units.len(),
{
    if units.len() == 0 {
        seq![]
    } else {
        ucs2_unit_utf8(units[0]) + ucs2_utf8(units.drop_first())
    }
}

/// The decoder's output fits in the buffer of two bytes per code unit that
/// `ucs2_decode` gives it.
pub open spec fn ucs2_decode_fits(units: Seq<u16>) -> bool {
    ucs2_utf8(units).len() <= 2 * units.len()
}

/// The code units read as characters (each unit is its own scalar value).
pub open spec fn ucs2_chars(units: Seq<u16>) -> Seq<char> {
    units.map_values(|u: u16| u as char)
}

/// Whether a code unit lies in the surrogate range, which UCS-2 leaves
/// without a character.
pub open spec fn is_surrogate(u: u16) -> bool {
    0xD800 <= u <= 0xDFFF
}

/// Some code unit of the string is a surrogate.
pub open spec fn has_surrogate(units: Seq<u16>) -> bool {
    exists|i: int| 0 <= i < units.len() && is_surrogate(#[trigger] units[i])
}

proof fn lemma_unit_char(c: u16)
    requires
        !is_surrogate(c),
    ensures
        (c as char) as u32 == c as u32,
{
}

proof fn lemma_unit_scalar_bytes(c: u16)
    requires
        !is_surrogate(c),
    ensures
        ucs2_unit_utf8(c) == encode_scalar(c as u32),
{
    let v = c as u32;
    if c < 0x80 {
        assert(c < 0x80 ==> (c as u8) == ((c as u32) & 0x7F) as u8) by (bit_vector);
        assert(has_width_1_encoding(v));
    } else if c < 0x800 {
        assert(0x80 <= c < 0x800 ==> (0xC0 + ((c >> 6u16) & 0x1F)) as u8 == (0xC0u8 | (((
        c as u32) >> 6u32) & 0x1F) as u8) && (0x80 + (c & 0x3F)) as u8 == (0x80u8 | ((c as u32)
            & 0x3F) as u8)) by (bit_vector);
        assert(has_width_2_encoding(v));
    } else {
        assert(0x800 <= c ==> (0xE0 + (c >> 12u16)) as u8 == (0xE0u8 | (((c as u32) >> 12u32)
            & 0x0F) as u8) && (0x80 + ((c >> 6u16) & 0x3F)) as u8 == (0x80u8 | (((c as u32)
            >> 6u32) & 0x3F) as u8) && (0x80 + (c & 0x3F)) as u8 == (0x80u8 | ((c as u32) & 0x3F)
            as u8)) by (bit_vector);
        assert(has_width_3_encoding(v));
    }
    assert(ucs2_unit_utf8(c) =~= encode_scalar(v));
}

proof fn lemma_ucs2_utf8_is_utf8_encoding(units: Seq<u16>)
    requires
        !has_surrogate(units),
    ensures
        ucs2_utf8(units) == encode_utf8(ucs2_chars(units)),
    decreases units.len(),
{
    if units.len() > 0 {
        let rest = units.drop_first();
        assert(!has_surrogate(rest)) by {
            if has_surrogate(rest) {
                let i = choose|i: int| 0 <= i < rest.len() && is_surrogate(#[trigger] rest[i]);
                assert(units[i + 1] == rest[i]);
            }
        }
        assert(!is_surrogate(units[0])) by {
            assert(units[0] == units[0]);
        }
        lemma_ucs2_utf8_is_utf8_encoding(rest);
        lemma_unit_char(units[0]);
        lemma_unit_scalar_bytes(units[0]);
        assert(ucs2_chars(units).drop_first() =~= ucs2_chars(rest));
    }
}

/// A UCS-2 string without surrogate code units is written as
/// well-formed UTF-8 that reads back as exactly its code units, each as a
/// character. With `ucs2_decode`'s contract this gives: when the encoding
/// fits, `ucs2_decode` returns those characters.
pub proof fn ucs2_decode_preserves_characters(units: Seq<u16>)
    requires
        !has_surrogate(units),
    ensures
        valid_utf8(ucs2_utf8(units)),
        decode_utf8(ucs2_utf8(units)) == ucs2_chars(units),
{
    lemma_ucs2_utf8_is_utf8_encoding(units);
    encode_utf8_valid_utf8(ucs2_chars(units));
    encode_utf8_decode_utf8(ucs2_chars(units));
}

proof fn lemma_leading_byte_width(c: u16)
    requires
        !is_surrogate(c),
    ensures
        c < 0x80 ==> is_leading_byte_width_1(ucs2_unit_utf8(c)[0]),
        0x80 <= c < 0x800 ==> !is_leading_byte_width_1(ucs2_unit_utf8(c)[0])
            && is_leading_byte_width_2(ucs2_unit_utf8(c)[0]),
        0x800 <= c ==> !is_leading_byte_width_1(ucs2_unit_utf8(c)[0])
            && !is_leading_byte_width_2(ucs2_unit_utf8(c)[0]) && is_leading_byte_width_3(
            ucs2_unit_utf8(c)[0],
        ),
{
    assert(c < 0x80 ==> (c as u8) <= 0x7f) by (bit_vector);
    assert(0x80 <= c < 0x800 ==> 0xc0 <= (0xC0 + ((c >> 6u16) & 0x1F)) as u8 <= 0xdf)
        by (bit_vector);
    assert(0x800 <= c ==> 0xe0 <= (0xE0 + (c >> 12u16)) as u8 <= 0xef) by (bit_vector);
}

proof fn lemma_surrogate_not_first_scalar(units: Seq<u16>)
    requires
        units.len() > 0,
        is_surrogate(units[0]),
    ensures
        !valid_first_scalar(ucs2_utf8(units)),
{
    let c = units[0];
    let bytes = ucs2_utf8(units);
    let b1 = (0xE0 + (c >> 12u16)) as u8;
    let b2 = (0x80 + ((c >> 6u16) & 0x3F)) as u8;
    let b3 = (0x80 + (c & 0x3F)) as u8;
    assert(bytes[0] == b1 && bytes[1] == b2 && bytes[2] == b3);
    assert(0xD800 <= c <= 0xDFFF ==> {
        &&& !(0x00 <= b1 <= 0x7f)
        &&& !(0xc0 <= b1 <= 0xdf)
        &&& 0xe0 <= b1 <= 0xef
        &&& ((((b1 & 0x0F) as u32) << 12u32) | (((b2 & 0x3f) as u32) << 6u32) | ((b3 & 0x3f)
            as u32)) == c as u32
    }) by (bit_vector)
        requires
            b1 == (0xE0 + (c >> 12u16)) as u8,
            b2 == (0x80 + ((c >> 6u16) & 0x3F)) as u8,
            b3 == (0x80 + (c & 0x3F)) as u8,
    ;
    assert(!not_surrogate(decode_first_codepoint(bytes)));
}

/// A UCS-2 string with a surrogate code unit anywhere is written as
/// bytes that are not well-formed UTF-8, so `ucs2_decode` refuses it (with
/// context "Failed to decode utf8" when the encoding fits).
pub proof fn ucs2_decode_rejects_surrogates(units: Seq<u16>)
    requires
        has_surrogate(units),
    ensures
        !valid_utf8(ucs2_utf8(units)),
    decreases units.len(),
{
    let bytes = ucs2_utf8(units);
    let c = units[0];
    if is_surrogate(c) {
        lemma_surrogate_not_first_scalar(units);
    } else {
        let rest = units.drop_first();
        assert(has_surrogate(rest)) by {
            let i = choose|i: int| 0 <= i < units.len() && is_surrogate(#[trigger] units[i]);
            assert(i != 0);
            assert(rest[i - 1] == units[i]);
        }
        ucs2_decode_rejects_surrogates(rest);
        lemma_leading_byte_width(c);
        let w = ucs2_unit_utf8(c).len() as int;
        assert(bytes[0] == ucs2_unit_utf8(c)[0]);
        if valid_utf8(bytes) {
            assert(length_of_first_codepoint(bytes) == w);
            assert(pop_first_scalar(bytes) =~= ucs2_utf8(rest));
        }
    }
}

/// How many code units of the string are at least `lo`.
pub open spec fn units_at_least(units: Seq<u16>, lo: u16) -> nat
    decreases units.len(),
{
    if units.len() == 0 {
        0
    } else {
        (if units[0] >= lo {
            1nat
        } else {
            0nat
        }) + units_at_least(units.drop_first(), lo)
    }
}

/// A code unit is written as one byte below 0x80, two below 0x800
/// and three otherwise; so the two bytes per unit that `ucs2_decode`
/// allots suffice exactly when the three-byte units are no more than the
/// one-byte units.
pub proof fn ucs2_decode_buffer_law(units: Seq<u16>)
    ensures
        ucs2_utf8(units).len() == units.len() + units_at_least(units, 0x80) + units_at_least(
            units,
            0x800,
        ),
        units_at_least(units, 0x800) <= units_at_least(units, 0x80) <= units.len(),
        ucs2_decode_fits(units) <==> units_at_least(units, 0x800) <= units.len()
            - units_at_least(units, 0x80),
    decreases units.len(),
{
    if units.len() > 0 {
        ucs2_decode_buffer_law(units.drop_first());
    }
}

/// Runs `ucs2::decode` on `input`, writing into `output`.
///
/// Per its source: the result is `Ok` with the number of bytes written
/// exactly when the whole encoding ([`ucs2_utf8`]) fits in `output`; those
/// bytes are the prefix of `output` and the rest is untouched. Otherwise it
/// stops with `BufferOverflow` (the only error its output callback returns)
/// after writing part of the encoding.
#[verifier::external_body]
fn ucs2_decode_into(input: &[u16], output: &mut Vec<u8>) -> (r: core::result::Result<
    usize,
    Ucs2ErrorKind,
>)
    ensures
        final(output)@.len() == old(output)@.len(),
        ucs2_utf8(input@).len() <= old(output)@.len() ==> {
            &&& r matches Ok(n) && n == ucs2_utf8(input@).len()
            &&& final(output)@ == ucs2_utf8(input@) + old(output)@.skip(
                ucs2_utf8(input@).len() as int,
            )
        },
        ucs2_utf8(input@).len() > old(output)@.len() ==> (r matches Err(k) && k
            == Ucs2ErrorKind::BufferOverflow),
{
    match ucs2::decode(input, output.as_mut_slice()) {
        Ok(n) => Ok(n),
        Err(ucs2::Error::BufferOverflow) => Err(Ucs2ErrorKind::BufferOverflow),
        Err(ucs2::Error::MultiByte) => Err(Ucs2ErrorKind::MultiByte),
    }
}

/// Runs `String::from_utf8`: `Ok` exactly when `bytes` is well-formed
/// UTF-8, and then the string holds the decoded characters.
#[verifier::external_body]
fn string_from_utf8(bytes: Vec<u8>) -> (r: core::result::Result<
    String,
    std::string::FromUtf8Error,
>)
    ensures
        r is Ok <==> valid_utf8(bytes@),
        r matches Ok(s) ==> s@ == decode_utf8(bytes@),
{
    String::from_utf8(bytes)
}

/// The characters a UCS-2 argument decodes to, when `ucs2_decode` succeeds.
pub open spec fn decoded_text(units: Seq<u16>) -> Option<Seq<char>> {
    if ucs2_decode_fits(units) && valid_utf8(ucs2_utf8(units)) {
        Some(decode_utf8(ucs2_utf8(units)))
    } else {
        None
    }
}

/// The error that `ucs2_decode` gives for code units it cannot decode:
/// "Failed to decode ucs2" with a buffer overflow when their encoding does
/// not fit two bytes per unit, else "Failed to decode utf8" with the UTF-8
/// error.
pub open spec fn decode_failure(units: Seq<u16>, e: Error) -> bool {
    if ucs2_decode_fits(units) {
        &&& e.context_view() == "Failed to decode utf8"@
        &&& e.inner_error() is FromUtf8
    } else {
        &&& e.context_view() == "Failed to decode ucs2"@
        &&& e.inner_error() == InnerError::Ucs2(Ucs2ErrorKind::BufferOverflow)
    }
}

/// Characters that UCS-2 can hold (none above U+FFFF), written one code
/// unit each, decode back to exactly themselves when their UTF-8 takes at
/// most two bytes per character, and fail otherwise: decoding undoes the
/// UCS-2 encoding within the buffer that `ucs2_decode` allots.
pub proof fn ucs2_decode_inverts_encoding(text: Seq<char>)
    requires
        forall|i: int| 0 <= i < text.len() ==> (#[trigger] text[i]) as u32 <= 0xFFFF,
    ensures
        ucs2_utf8(text.map_values(|c: char| (c as u32) as u16)) == encode_utf8(text),
        decoded_text(text.map_values(|c: char| (c as u32) as u16)) == if encode_utf8(text).len() <= 2
            * text.len() {
            Some(text)
        } else {
            None
        },
{
    let units = text.map_values(|c: char| (c as u32) as u16);
    assert forall|i: int| 0 <= i < units.len() implies !is_surrogate(#[trigger] units[i])
        && units[i] as u32 == text[i] as u32 by {
        char_is_scalar(text[i]);
        let v = text[i] as u32;
        assert(v <= 0xFFFF ==> (v as u16) as u32 == v) by (bit_vector);
        assert(units[i] == v as u16);
    }
    assert(ucs2_chars(units) =~= text) by {
        assert forall|i: int| 0 <= i < text.len() implies ucs2_chars(units)[i] == text[i] by {
            assert(units[i] as u32 == text[i] as u32);
            lemma_unit_char(units[i]);
            char_u32_cast(text[i], text[i] as u32);
        }
    }
    lemma_ucs2_utf8_is_utf8_encoding(units);
    encode_utf8_valid_utf8(text);
    encode_utf8_decode_utf8(text);
}

/// Decodes a UCS-2 string (its code units, without the terminating nul)
/// into a `String`.
///
/// The code units are first encoded into a buffer of two bytes per unit,
/// which fails with context "Failed to decode ucs2" when the encoding is
/// longer than that; the bytes are then read as UTF-8, which fails with
/// context "Failed to decode utf8" when they are not well-formed (a
/// surrogate code unit among the input).
pub fn ucs2_decode(s: &[u16]) -> (r: Result<String>)
    requires
        s@.len() * 2 <= usize::MAX,
    ensures
        r is Ok <==> ucs2_decode_fits(s@) && valid_utf8(ucs2_utf8(s@)),
        r matches Ok(text) ==> text@ == decode_utf8(ucs2_utf8(s@)),
        r matches Err(e) ==> decode_failure(s@, e),
{
    let mut buffer: Vec<u8> = vec![0u8; s.len() * 2];
    let bytes = match ucs2_decode_into(s, &mut buffer).with_context("Failed to decode ucs2") {
        Ok(n) => n,
        Err(e) => return Err(e),
    };
    buffer.resize(bytes, 0);
    assert(buffer@ =~= ucs2_utf8(s@));
    match string_from_utf8(buffer).with_context("Failed to decode utf8") {
        Ok(text) => Ok(text),
        Err(e) => Err(e),
    }
}

} // verus!

verus! {

/// The upper-case hexadecimal digit for a value below 16.
pub open spec fn hex_digit(n: u8) -> char {
    if n < 10 {
        ((0x30 + n) as u8) as char
    } else {
        ((0x41 + n - 10) as u8) as char
    }
}

/// Each byte as two upper-case hexadecimal digits, high nibble first, with
/// no separators (what `{:02X}` prints byte by byte).
pub open spec fn hex_upper_text(data: Seq<u8>) -> Seq<char> {
    Seq::new(
        2 * data.len(),
        |i: int|
            if i % 2 == 0 {
                hex_digit(data[i / 2] >> 4u8)
            } else {
                hex_digit(data[i / 2] & 0xFu8)
            },
    )
}

/// The value of an upper-case hexadecimal digit: `'0'`..`'9'` are 0 to 9,
/// `'A'`..`'F'` are 10 to 15; any other character is no digit.
pub open spec fn hex_digit_value(c: char) -> Option<int> {
    if '0' <= c && c <= '9' {
        Some(c as int - '0' as int)
    } else if 'A' <= c && c <= 'F' {
        Some(c as int - 'A' as int + 10)
    } else {
        None
    }
}

proof fn lemma_hex_digit_reads_back(n: u8)
    requires
        n < 16,
    ensures
        hex_digit_value(hex_digit(n)) == Some(n as int),
{
    if n < 10 {
        assert(((0x30 + n) as u8) as char as int == 0x30 + n);
    } else {
        assert(((0x41 + n - 10) as u8) as char as int == 0x41 + n - 10);
    }
}

/// Hexadecimal text reads back as its bytes: it has two characters per
/// byte, and the pair for byte `i` are upper-case hexadecimal digits `h`
/// and `l` with `16 * h + l` equal to the byte.
pub proof fn hex_upper_reads_back(data: Seq<u8>)
    ensures
        hex_upper_text(data).len() == 2 * data.len(),
        forall|i: int|
            0 <= i < data.len() ==> {
                &&& hex_digit_value(#[trigger] hex_upper_text(data)[2 * i]) matches Some(h)
                &&& hex_digit_value(hex_upper_text(data)[2 * i + 1]) matches Some(l)
                &&& 16 * h + l == data[i]
            },
{
    let t = hex_upper_text(data);
    assert forall|i: int| 0 <= i < data.len() implies {
        &&& hex_digit_value(#[trigger] t[2 * i]) matches Some(h)
        &&& hex_digit_value(t[2 * i + 1]) matches Some(l)
        &&& 16 * h + l == data[i]
    } by {
        let b = data[i];
        let hi = b >> 4u8;
        let lo = b & 0xFu8;
        assert(hi < 16 && lo < 16 && 16 * hi + lo == b) by (bit_vector)
            requires
                hi == b >> 4u8,
                lo == b & 0xFu8,
        ;
        assert((2 * i) / 2 == i && (2 * i) % 2 == 0);
        assert((2 * i + 1) / 2 == i && (2 * i + 1) % 2 == 1);
        lemma_hex_digit_reads_back(hi);
        lemma_hex_digit_reads_back(lo);
    }
}

fn hex_digit_byte(n: u8) -> (d: u8)
    requires
        n < 16,
    ensures
        d as char == hex_digit(n),
        d < 0x80,
{
    if n < 10 {
        0x30 + n
    } else {
        0x41 + n - 10
    }
}

/// A `String` holding ASCII bytes, character for character.
fn ascii_string(bytes: Vec<u8>) -> (s: String)
    requires
        forall|i: int| 0 <= i < bytes@.len() ==> bytes@[i] < 0x80,
    ensures
        s@ == bytes@.map_values(|b: u8| b as char),
{
    let ghost chars = bytes@.map_values(|b: u8| b as char);
    proof {
        assert(is_ascii_chars(chars));
        is_ascii_chars_encode_utf8(chars);
        assert(encode_utf8(chars) =~= bytes@);
        encode_utf8_valid_utf8(chars);
        encode_utf8_decode_utf8(chars);
    }
    match string_from_utf8(bytes) {
        Ok(s) => s,
        Err(_) => {
            assert(false);
            String::new()
        },
    }
}

/// Formats bytes as upper-case hexadecimal, two digits per byte.
pub fn hex_upper(data: &[u8]) -> (s: String)
    requires
        data@.len() * 2 <= usize::MAX,
    ensures
        s@ == hex_upper_text(data@),
{
    let mut out: Vec<u8> = Vec::with_capacity(data.len() * 2);
    let mut i: usize = 0;
    while i < data.len()
        invariant
            i <= data@.len(),
            out@.len() == 2 * i,
            forall|j: int| 0 <= j < out@.len() ==> out@[j] < 0x80,
            forall|j: int|
                0 <= j < out@.len() ==> #[trigger] (out@[j] as char) == hex_upper_text(data@)[j],
        decreases data@.len() - i,
    {
        let b = data[i];
        let hi = b >> 4u8;
        let lo = b & 0xFu8;
        assert(hi < 16 && lo < 16) by (bit_vector)
            requires
                hi == b >> 4u8,
                lo == b & 0xFu8,
        ;
        out.push(hex_digit_byte(hi));
        out.push(hex_digit_byte(lo));
        proof {
            let t = hex_upper_text(data@);
            assert(t[2 * i] == hex_digit(data@[i as int] >> 4u8));
            assert(t[2 * i + 1] == hex_digit(data@[i as int] & 0xFu8));
        }
        i = i + 1;
    }
    let s = ascii_string(out);
    assert(s@ =~= hex_upper_text(data@));
    s
}

} // verus!
