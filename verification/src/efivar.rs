//! The decisions of the `efivar` tool: which command the arguments ask
//! for, reading an edit request, and patching a variable's bytes.

use vstd::prelude::*;

use vstd::string::StringSliceAdditionalSpecFns;
use vstd::utf8::encode_utf8;

use crate::error::{GuidErrorKind, InnerError, Result, WithContext};
use crate::decimal::{decimal_value, parse_u64, parse_usize};
use crate::text::{decoded_text, ucs2_decode, ucs2_decode_fits};

verus! {

/// What `efivar` does for a given argument count.
#[derive(PartialEq, Eq, Structural, Clone, Copy, Debug)]
pub enum EfivarCommand {
    /// No arguments: list every variable.
    List,
    /// Five arguments (guid, name, offset, width, value): update a variable.
    Edit,
    /// Anything else: print how to use the tool.
    Usage,
}

/// The command for `argc` shell arguments (the program's own name included).
pub fn efivar_command(argc: usize) -> (c: EfivarCommand)
    ensures
        argc == 6 ==> c == EfivarCommand::Edit,
        argc == 1 ==> c == EfivarCommand::List,
        argc != 6 && argc != 1 ==> c == EfivarCommand::Usage,
{
    if argc == 6 {
        EfivarCommand::Edit
    } else if argc == 1 {
        EfivarCommand::List
    } else {
        EfivarCommand::Usage
    }
}

/// The value of an ASCII hexadecimal digit (either case).
pub open spec fn hex_digit_value(c: u8) -> Option<u8> {
    if 0x30 <= c <= 0x39 {
        Some((c - 0x30) as u8)
    } else if 0x61 <= c <= 0x66 {
        Some((c - 0x61 + 10) as u8)
    } else if 0x41 <= c <= 0x46 {
        Some((c - 0x41 + 10) as u8)
    } else {
        None
    }
}

/// The byte written by the two hexadecimal digits at `start`.
pub open spec fn hex_pair_at(text: Seq<u8>, start: int) -> Option<u8> {
    match (hex_digit_value(text[start]), hex_digit_value(text[start + 1])) {
        (Some(h), Some(l)) => Some((h * 16 + l) as u8),
        _ => None,
    }
}

/// Where in "xxxxxxxx-xxxx-xxxx-xxxx-xxxxxxxxxxxx" each of the GUID's 16
/// bytes, in memory order, is written: the first three fields are
/// little-endian, the rest in order.
pub open spec fn guid_byte_positions() -> Seq<u8> {
    seq![6u8, 4, 2, 0, 11, 9, 16, 14, 19, 21, 24, 26, 28, 30, 32, 34]
}

/// The GUID's bytes from the `k`-th on, read in memory order; the first
/// pair that is not hexadecimal is the error.
pub open spec fn guid_bytes_from(text: Seq<u8>, k: nat) -> core::result::Result<
    Seq<u8>,
    GuidErrorKind,
>
    decreases 16 - k,
{
    if k >= 16 {
        Ok(seq![])
    } else {
        let start = guid_byte_positions()[k as int];
        match hex_pair_at(text, start as int) {
            None => Err(GuidErrorKind::Hex(start)),
            Some(x) => match guid_bytes_from(text, k + 1) {
                Ok(rest) => Ok(seq![x] + rest),
                Err(e) => Err(e),
            },
        }
    }
}

/// How `uguid::Guid::try_parse` reads the UTF-8 bytes of a text: it must be
/// 36 bytes, with `-` at 8, 13, 18 and 23 (checked in that order), and then
/// hexadecimal pairs that give the 16 bytes of the GUID in memory order.
pub open spec fn guid_parse(text: Seq<u8>) -> core::result::Result<Seq<u8>, GuidErrorKind> {
    if text.len() != 36 {
        Err(GuidErrorKind::Length)
    } else if text[8] != 0x2d {
        Err(GuidErrorKind::Separator(8))
    } else if text[13] != 0x2d {
        Err(GuidErrorKind::Separator(13))
    } else if text[18] != 0x2d {
        Err(GuidErrorKind::Separator(18))
    } else if text[23] != 0x2d {
        Err(GuidErrorKind::Separator(23))
    } else {
        guid_bytes_from(text, 0)
    }
}

/// `uguid::Guid::try_parse`, handing back the GUID's bytes
/// (`Guid::to_bytes`, which gives the bytes back in the order they were
/// parsed) or the variant of its error. Its source reads the text as
/// [`guid_parse`] states.
#[verifier::external_body]
fn parse_guid(text: &str) -> (r: core::result::Result<[u8; 16], GuidErrorKind>)
    ensures
        r is Ok <==> guid_parse(text.spec_bytes()) is Ok,
        r matches Ok(b) ==> (guid_parse(text.spec_bytes()) matches Ok(g) && g == b@),
        r matches Err(k) ==> (guid_parse(text.spec_bytes()) matches Err(e) && e == k),
{
    match uguid::Guid::try_parse(text) {
        Ok(guid) => Ok(guid.to_bytes()),
        Err(uguid::GuidFromStrError::Length) => Err(GuidErrorKind::Length),
        Err(uguid::GuidFromStrError::Separator(i)) => Err(GuidErrorKind::Separator(i)),
        Err(uguid::GuidFromStrError::Hex(i)) => Err(GuidErrorKind::Hex(i)),
    }
}

/// What the `Edit` command was asked to do.
pub struct EditRequest {
    /// The vendor GUID of the variable, as its 16 bytes in memory order.
    pub guid: [u8; 16],
    /// The variable's name.
    pub name: String,
    /// Where in the variable's data the new value starts.
    pub offset: usize,
    /// How many bytes of the value to write.
    pub width: usize,
    /// The value to write.
    pub value: u64,
}

/// Every argument in `args[1..6]` decodes.
pub open spec fn edit_args_decode(args: Seq<Vec<u16>>) -> bool {
    forall|k: int| 1 <= k < 6 ==> (#[trigger] decoded_text(args[k]@)) is Some
}

/// The text of argument `k`, once all decode.
pub open spec fn edit_arg(args: Seq<Vec<u16>>, k: int) -> Seq<char> {
    decoded_text(args[k]@).unwrap()
}

/// Reads the arguments of the `Edit` command: `args[0]` is the program,
/// then the GUID, the variable name, the offset, the width and the value,
/// each as UCS-2 code units. The arguments are decoded in order, then the
/// GUID and the three numbers are parsed in order; the first failure is
/// returned with the context of its step.
pub fn parse_edit_request(args: &Vec<Vec<u16>>) -> (r: Result<EditRequest>)
    requires
        args@.len() == 6,
        forall|k: int| 0 <= k < 6 ==> (#[trigger] args@[k])@.len() * 2 <= usize::MAX,
    ensures
        forall|k: int|
            1 <= k < 6 && (#[trigger] decoded_text(args@[k]@)) is None && (forall|j: int|
                1 <= j < k ==> (#[trigger] decoded_text(args@[j]@)) is Some) ==> (r matches Err(e)
                && if ucs2_decode_fits(args@[k]@) {
                e.context_view() == "Failed to decode utf8"@ && e.inner_error() is FromUtf8
            } else {
                e.context_view() == "Failed to decode ucs2"@ && e.inner_error() is Ucs2
            }),
        edit_args_decode(args@) ==> {
            let g = guid_parse(encode_utf8(edit_arg(args@, 1)));
            let off = decimal_value(edit_arg(args@, 3));
            let wid = decimal_value(edit_arg(args@, 4));
            let val = decimal_value(edit_arg(args@, 5));
            let off_ok = off matches Some(v) && v <= usize::MAX;
            let wid_ok = wid matches Some(v) && v <= usize::MAX;
            let val_ok = val matches Some(v) && v <= u64::MAX;
            &&& g is Err ==> (r matches Err(e) && e.context_view() == "Failed to parse guid"@
                && e.inner_error() == InnerError::GuidFromStr(g->Err_0))
            &&& g is Ok && !off_ok ==> (r matches Err(e) && e.context_view()
                == "Failed to parse offset"@ && e.inner_error() is ParseInt)
            &&& g is Ok && off_ok && !wid_ok ==> (r matches Err(e) && e.context_view()
                == "Failed to parse width"@ && e.inner_error() is ParseInt)
            &&& g is Ok && off_ok && wid_ok && !val_ok ==> (r matches Err(e) && e.context_view()
                == "Failed to parse value"@ && e.inner_error() is ParseInt)
            &&& g is Ok && off_ok && wid_ok && val_ok ==> (r matches Ok(req) && {
                &&& req.guid@ == g->Ok_0
                &&& req.name@ == edit_arg(args@, 2)
                &&& req.offset as nat == off.unwrap()
                &&& req.width as nat == wid.unwrap()
                &&& req.value as nat == val.unwrap()
            })
        },
{
    let mut texts: Vec<String> = Vec::new();
    let mut k: usize = 1;
    while k < 6
        invariant
            1 <= k <= 6,
            args@.len() == 6,
            forall|j: int| 0 <= j < 6 ==> (#[trigger] args@[j])@.len() * 2 <= usize::MAX,
            texts@.len() == k - 1,
            forall|j: int| 1 <= j < k ==> (#[trigger] decoded_text(args@[j]@)) == Some(texts@[j - 1]@),
        decreases 6 - k,
    {
        let text = match ucs2_decode(args[k].as_slice()) {
            Ok(t) => t,
            Err(e) => {
                assert(!edit_args_decode(args@) && decoded_text(args@[k as int]@) is None);
                return Err(e);
            },
        };
        texts.push(text);
        k = k + 1;
    }
    assert(edit_args_decode(args@));
    let guid = parse_guid(texts[0].as_str());
    let name = texts[1].clone();
    build_edit_request(guid, name, texts[2].as_str(), texts[3].as_str(), texts[4].as_str())
}

/// Finishes an edit request once the GUID text has been parsed: a GUID
/// error fails with context "Failed to parse guid"; then the offset, the
/// width and the value are read as unsigned decimals, in that order, the
/// first that is not one (or does not fit its type) failing with context
/// "Failed to parse offset", "... width" or "... value".
pub fn build_edit_request(
    guid: core::result::Result<[u8; 16], GuidErrorKind>,
    name: String,
    offset: &str,
    width: &str,
    value: &str,
) -> (r: Result<EditRequest>)
    ensures
        ({
            let off = decimal_value(offset@);
            let wid = decimal_value(width@);
            let val = decimal_value(value@);
            let off_ok = off matches Some(v) && v <= usize::MAX;
            let wid_ok = wid matches Some(v) && v <= usize::MAX;
            let val_ok = val matches Some(v) && v <= u64::MAX;
            &&& guid is Err ==> (r matches Err(e) && e.context_view() == "Failed to parse guid"@
                && e.inner_error() == InnerError::GuidFromStr(guid->Err_0))
            &&& guid is Ok && !off_ok ==> (r matches Err(e) && e.context_view()
                == "Failed to parse offset"@ && e.inner_error() is ParseInt)
            &&& guid is Ok && off_ok && !wid_ok ==> (r matches Err(e) && e.context_view()
                == "Failed to parse width"@ && e.inner_error() is ParseInt)
            &&& guid is Ok && off_ok && wid_ok && !val_ok ==> (r matches Err(e) && e.context_view()
                == "Failed to parse value"@ && e.inner_error() is ParseInt)
            &&& guid is Ok && off_ok && wid_ok && val_ok ==> (r matches Ok(req) && {
                &&& guid matches Ok(g) && req.guid == g
                &&& req.name@ == name@
                &&& req.offset as nat == off.unwrap()
                &&& req.width as nat == wid.unwrap()
                &&& req.value as nat == val.unwrap()
            })
        }),
{
    let guid = match guid.with_context("Failed to parse guid") {
        Ok(g) => g,
        Err(e) => return Err(e),
    };
    let offset = match parse_usize(offset).with_context("Failed to parse offset") {
        Ok(v) => v,
        Err(e) => return Err(e),
    };
    let width = match parse_usize(width).with_context("Failed to parse width") {
        Ok(v) => v,
        Err(e) => return Err(e),
    };
    let value = match parse_u64(value).with_context("Failed to parse value") {
        Ok(v) => v,
        Err(e) => return Err(e),
    };
    Ok(EditRequest { guid, name, offset, width, value })
}

/// The `k`-th least significant byte of `value` (byte `k` of its
/// little-endian representation).
pub open spec fn value_byte(value: u64, k: u64) -> u8 {
    ((value >> (8 * k) as u64) & 0xff) as u8
}

/// `data` with the low `width` bytes of `value` written at `offset`, most
/// significant first; everything else unchanged.
pub open spec fn patched(data: Seq<u8>, offset: int, width: int, value: u64) -> Seq<u8> {
    Seq::new(
        data.len(),
        |j: int|
            if offset <= j < offset + width {
                value_byte(value, (width - 1 - (j - offset)) as u64)
            } else {
                data[j]
            },
    )
}

/// Writes the low `width` bytes of `value` into `data` at `offset`, most
/// significant byte first (byte `width - 1 - i` of the value's
/// little-endian bytes goes to `offset + i`). A value has eight bytes, so a
/// nonzero width must be at most 8 and the field must lie inside `data`.
pub fn patch_value(data: &mut Vec<u8>, offset: usize, width: usize, value: u64)
    requires
        width == 0 || (width <= 8 && offset + width <= old(data)@.len()),
    ensures
        final(data)@ == patched(old(data)@, offset as int, width as int, value),
{
    let mut i: usize = 0;
    while i < width
        invariant
            i <= width,
            width == 0 || (width <= 8 && offset + width <= data@.len()),
            data@.len() == old(data)@.len(),
            forall|j: int|
                0 <= j < data@.len() ==> data@[j] == (if offset <= j < offset + i {
                    value_byte(value, (width - 1 - (j - offset)) as u64)
                } else {
                    old(data)@[j]
                }),
        decreases width - i,
    {
        let n: usize = data.len();
        assert(width > 0 && offset + i < n);
        let at: usize = offset + i;
        let k: u64 = (width - i - 1) as u64;
        let byte: u8 = ((value >> (8 * k)) & 0xff) as u8;
        data.set(at, byte);
        i = i + 1;
    }
    assert(data@ =~= patched(old(data)@, offset as int, width as int, value));
}

/// Where the byte-by-byte write of a field fails: the value has eight
/// bytes, and the field must lie inside the data.
#[derive(PartialEq, Eq, Structural, Clone, Copy, Debug)]
pub enum PatchFault {
    /// The first byte to write is the value's byte at this index
    /// (`width - 1`), past its eighth.
    ValueIndex(usize),
    /// The first byte of the field that lies past the end of the data is at
    /// this index.
    DataIndex(usize),
}

/// Where writing a field of `width` bytes at `offset` into `len` bytes
/// fails, if it does. The bytes are written from the field's start, each
/// taken from the value before it is stored: a width over 8 fails at once
/// on the value's byte `width - 1`; otherwise the first byte stored past the
/// data's end fails, at `offset` when the field starts past the end, else
/// at `len`. A zero width writes nothing and never fails.
pub open spec fn patch_fault(len: int, offset: int, width: int) -> Option<PatchFault> {
    if width == 0 {
        None
    } else if width > 8 {
        Some(PatchFault::ValueIndex((width - 1) as usize))
    } else if offset + width <= len {
        None
    } else if offset < len {
        Some(PatchFault::DataIndex(len as usize))
    } else {
        Some(PatchFault::DataIndex(offset as usize))
    }
}

/// A field is written without fault exactly when it is empty, or when it
/// is at most the value's eight bytes wide and ends at or before the end of
/// the data (a field that ends exactly at the end fits). A fault on the
/// value's bytes comes only from a width over eight and names the value's
/// byte `width - 1`, the first one taken; a fault on the data names the
/// first byte of the field that lies at or past the data's end.
pub proof fn patch_fault_law(len: usize, offset: usize, width: usize)
    ensures
        patch_fault(len as int, offset as int, width as int) is None <==> (width == 0 || (width <= 8
            && offset + width <= len)),
        patch_fault(len as int, offset as int, width as int) matches Some(PatchFault::ValueIndex(i))
            ==> width > 8 && i == width - 1,
        patch_fault(len as int, offset as int, width as int) matches Some(PatchFault::DataIndex(i))
            ==> {
            &&& 0 < width <= 8
            &&& offset <= i < offset + width
            &&& len <= i
            &&& (i == offset || i - 1 < len)
        },
{
}

/// Writes the field as [`patch_value`] does when it fits; otherwise leaves
/// `data` unchanged and says where the write fails.
pub fn checked_patch_value(data: &mut Vec<u8>, offset: usize, width: usize, value: u64) -> (r:
    Option<PatchFault>)
    ensures
        r == patch_fault(old(data)@.len() as int, offset as int, width as int),
        r is None <==> (width == 0 || (width <= 8 && offset + width <= old(data)@.len())),
        r is None ==> final(data)@ == patched(old(data)@, offset as int, width as int, value),
        r is Some ==> final(data)@ == old(data)@,
{
    if width == 0 {
        patch_value(data, offset, width, value);
        return None;
    }
    if width > 8 {
        return Some(PatchFault::ValueIndex(width - 1));
    }
    let len: usize = data.len();
    if offset < len && width <= len - offset {
        patch_value(data, offset, width, value);
        None
    } else if offset < len {
        Some(PatchFault::DataIndex(len))
    } else {
        Some(PatchFault::DataIndex(offset))
    }
}

/// 256 to the power `k`.
pub open spec fn pow256(k: nat) -> nat
    decreases k,
{
    if k == 0 {
        1
    } else {
        256 * pow256((k - 1) as nat)
    }
}

proof fn lemma_pow256_positive(k: nat)
    ensures
        pow256(k) > 0,
    decreases k,
{
    if k > 0 {
        lemma_pow256_positive((k - 1) as nat);
    }
}

/// The number that `bytes` write, most significant byte first.
pub open spec fn be_value(bytes: Seq<u8>) -> nat
    decreases bytes.len(),
{
    if bytes.len() == 0 {
        0
    } else {
        be_value(bytes.drop_last()) * 256 + bytes.last() as nat
    }
}

/// The `width` bytes that [`patch_value`] writes for `value`.
pub open spec fn value_field(value: u64, width: nat) -> Seq<u8> {
    Seq::new(width, |t: int| value_byte(value, (width - 1 - t) as u64))
}

proof fn lemma_value_byte_shift(v: u64, k: u64)
    requires
        k < 7,
    ensures
        value_byte(v, (k + 1) as u64) == value_byte(v >> 8u64, k),
{
    assert(((v >> (8 * ((k + 1) as u64)) as u64) & 0xff) as u8 == (((v >> 8u64) >> (8 * k) as u64)
        & 0xff) as u8) by (bit_vector)
        requires
            k < 7,
    ;
}

proof fn lemma_value_field(value: u64, width: nat)
    requires
        width <= 8,
    ensures
        be_value(value_field(value, width)) == value as nat % pow256(width),
    decreases width,
{
    if width > 0 {
        let w = width;
        let f = value_field(value, w);
        let rest = value >> 8u64;
        let g = value_field(rest, (w - 1) as nat);
        assert forall|t: int| 0 <= t < w - 1 implies f.drop_last()[t] == g[t] by {
            lemma_value_byte_shift(value, (w - 2 - t) as u64);
        }
        assert(f.drop_last() =~= g);
        lemma_value_field(rest, (w - 1) as nat);
        assert(value_byte(value, 0) == value % 256 && rest == value / 256) by (bit_vector)
            requires
                rest == value >> 8u64,
        ;
        assert(f.last() == value_byte(value, 0));
        lemma_pow256_positive((w - 1) as nat);
        vstd::arithmetic::div_mod::lemma_mod_breakdown(value as int, 256, pow256((w - 1) as nat) as int);
        assert(be_value(f) == be_value(g) * 256 + value as nat % 256);
        assert(pow256(w) == 256 * pow256((w - 1) as nat));
        assert(be_value(g) * 256 == 256 * ((value as nat / 256) % pow256((w - 1) as nat))) by (nonlinear_arith)
            requires
                be_value(g) == rest as nat % pow256((w - 1) as nat),
                rest == value / 256,
        ;
    }
}

/// After [`patch_value`], the edited field read most significant byte
/// first is the value modulo 256 to the power of the width, and every byte
/// outside the field is what it was.
pub proof fn patch_value_writes_number(data: Seq<u8>, offset: int, width: int, value: u64)
    requires
        0 <= offset,
        0 <= width <= 8,
        offset + width <= data.len(),
    ensures
        be_value(patched(data, offset, width, value).subrange(offset, offset + width)) == value as nat
            % pow256(width as nat),
        patched(data, offset, width, value).subrange(0, offset) == data.subrange(0, offset),
        patched(data, offset, width, value).subrange(offset + width, data.len() as int)
            == data.subrange(offset + width, data.len() as int),
{
    let p = patched(data, offset, width, value);
    assert(p.subrange(offset, offset + width) =~= value_field(value, width as nat));
    lemma_value_field(value, width as nat);
    assert(p.subrange(0, offset) =~= data.subrange(0, offset));
    assert(p.subrange(offset + width, data.len() as int) =~= data.subrange(
        offset + width,
        data.len() as int,
    ));
}

} // verus!
