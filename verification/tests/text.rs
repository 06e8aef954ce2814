use efiutils::error::{
    Error, GuidErrorKind, InnerError, NulSliceErrorKind, Ucs2ErrorKind, UefiStatus, WithContext,
};
use efiutils::text::hex_upper;
use efiutils::ucs2_decode;

fn units(s: &str) -> Vec<u16> {
    s.encode_utf16().collect()
}

#[test]
fn decode_ascii() {
    assert_eq!(ucs2_decode(&units("Hello")).ok().unwrap(), "Hello");
}

#[test]
fn decode_empty() {
    assert_eq!(ucs2_decode(&[]).ok().unwrap(), "");
}

#[test]
fn decode_two_byte_characters() {
    assert_eq!(ucs2_decode(&units("café ñ")).ok().unwrap(), "café ñ");
}

#[test]
fn decode_three_byte_character_with_room() {
    // 'A' takes one byte and 'あ' three: four bytes in a four-byte buffer.
    assert_eq!(ucs2_decode(&[0x41, 0x3042]).ok().unwrap(), "Aあ");
}

#[test]
fn decode_three_byte_character_without_room() {
    // 'あ' alone needs three bytes, but the buffer holds two per unit.
    let err = ucs2_decode(&[0x3042]).err().unwrap();
    assert_eq!(err.context(), "Failed to decode ucs2");
    assert!(matches!(err.inner(), InnerError::Ucs2(Ucs2ErrorKind::BufferOverflow)));
    assert_eq!(err.to_string(), "Context: Failed to decode ucs2, Error: BufferOverflow");
}

#[test]
fn decode_surrogate_is_refused() {
    // A lone high surrogate encodes to bytes that are not UTF-8.
    let err = ucs2_decode(&[0x41, 0x41, 0xD800]).err().unwrap();
    assert_eq!(err.context(), "Failed to decode utf8");
    assert!(matches!(err.inner(), InnerError::FromUtf8(_)));
    assert!(err
        .to_string()
        .starts_with("Context: Failed to decode utf8, Error: "));
}

#[test]
fn decode_preserves_every_bmp_character_that_fits() {
    // Every non-surrogate BMP unit, padded with ASCII so that it fits.
    for u in 0u32..=0xFFFF {
        if (0xD800..=0xDFFF).contains(&u) {
            continue;
        }
        let input = [0x20u16, 0x20u16, u as u16];
        let text = ucs2_decode(&input).ok().unwrap();
        let expected: String = ['\u{20}', '\u{20}', char::from_u32(u).unwrap()]
            .iter()
            .collect();
        assert_eq!(text, expected);
    }
}

#[test]
fn decode_refuses_every_surrogate() {
    for u in 0xD800u16..=0xDFFF {
        let err = ucs2_decode(&[0x20, 0x20, u]).err().unwrap();
        assert_eq!(err.context(), "Failed to decode utf8");
    }
}

#[test]
fn decode_buffer_counts() {
    // Two three-byte units need two one-byte units beside them.
    assert!(ucs2_decode(&[0x41, 0x4E2D, 0x42, 0x6587]).is_ok());
    assert!(ucs2_decode(&[0x41, 0x4E2D, 0x00E9, 0x6587]).is_err());
    // Two-byte units always fit.
    assert_eq!(
        ucs2_decode(&units("éééé")).ok().unwrap(),
        "éééé"
    );
}

#[test]
fn hex_upper_formats_each_byte() {
    assert_eq!(hex_upper(&[0xAB, 0x05, 0x00, 0xFF]), "AB0500FF");
    assert_eq!(hex_upper(&[]), "");
    assert_eq!(hex_upper(&[0x0F, 0xF0]), "0FF0");
}

#[test]
fn with_context_passes_ok_through() {
    let r: Result<u8, ucs2::Error> = Ok(7);
    assert_eq!(r.with_context("unused").ok().unwrap(), 7);
}

#[test]
fn with_context_wraps_errors() {
    let r: Result<u32, core::num::ParseIntError> = "x1".parse::<u32>();
    let err = r.with_context("Failed to parse offset").err().unwrap();
    assert_eq!(err.context(), "Failed to parse offset");
    assert!(matches!(err.inner(), InnerError::ParseInt(_)));
    assert_eq!(
        err.to_string(),
        "Context: Failed to parse offset, Error: invalid digit found in string"
    );
}

#[test]
fn uefi_error_message() {
    let r: Result<(), uefi::Error> = Err(uefi::Error::from(uefi::Status::NOT_FOUND));
    let err = r.with_context("Failed to find protocol handle").err().unwrap();
    assert_eq!(
        err.to_string(),
        "Context: Failed to find protocol handle, Error: UEFI Error NOT_FOUND: ()"
    );
}

#[test]
fn uefi_error_keeps_its_status() {
    let r: Result<(), uefi::Error> = Err(uefi::Error::from(uefi::Status::ACCESS_DENIED));
    let err = r.with_context("Failed to open").err().unwrap();
    match err.inner() {
        InnerError::Uefi(s) => assert_eq!(s.code(), uefi::Status::ACCESS_DENIED.0),
        _ => panic!("expected a UEFI cause"),
    }
}

#[test]
fn uefi_status_message_names_the_status() {
    let s = UefiStatus::new(uefi::Status::BUFFER_TOO_SMALL.0).unwrap();
    assert_eq!(InnerError::Uefi(s).to_string(), "UEFI Error BUFFER_TOO_SMALL: ()");
    let s = UefiStatus::new(uefi::Status::WARN_UNKNOWN_GLYPH.0).unwrap();
    assert_eq!(InnerError::Uefi(s).to_string(), "UEFI Error WARN_UNKNOWN_GLYPH: ()");
}

#[test]
fn uefi_status_message_for_an_unnamed_code() {
    let s = UefiStatus::new(1000).unwrap();
    assert_eq!(InnerError::Uefi(s).to_string(), "UEFI Error Status(1000): ()");
    let err = Error::new("ctx", InnerError::from(s));
    assert_eq!(err.to_string(), "Context: ctx, Error: UEFI Error Status(1000): ()");
}

#[test]
fn uefi_status_is_never_success() {
    assert!(UefiStatus::new(0).is_none());
    assert_eq!(UefiStatus::new(7).unwrap().code(), 7);
}

#[test]
fn guid_error_message() {
    let r = uguid::Guid::try_parse("nope");
    let err = r.with_context("Failed to parse guid").err().unwrap();
    assert_eq!(
        err.to_string(),
        "Context: Failed to parse guid, Error: GUID string has wrong length (expected 36 bytes)"
    );
}

#[test]
fn error_new_keeps_its_parts() {
    let err = Error::new("ctx", InnerError::Ucs2(Ucs2ErrorKind::MultiByte));
    assert_eq!(err.context(), "ctx");
    assert!(matches!(err.inner(), InnerError::Ucs2(Ucs2ErrorKind::MultiByte)));
    assert_eq!(err.to_string(), "Context: ctx, Error: MultiByte");
    assert_eq!(err.inner().to_string(), "MultiByte");
}

#[test]
fn inner_error_from_conversions() {
    let e: InnerError = ucs2::Error::BufferOverflow.into();
    assert!(matches!(e, InnerError::Ucs2(Ucs2ErrorKind::BufferOverflow)));
    let e: InnerError = uguid::GuidFromStrError::Length.into();
    assert!(matches!(e, InnerError::GuidFromStr(GuidErrorKind::Length)));
    let e: InnerError = uefi::data_types::FromSliceWithNulError::NotNulTerminated.into();
    assert!(matches!(
        e,
        InnerError::FromSliceWithNul(NulSliceErrorKind::NotNulTerminated)
    ));
    assert_eq!(e.to_string(), "NotNulTerminated");
    let e: InnerError = uguid::GuidFromStrError::Hex(30).into();
    assert!(matches!(e, InnerError::GuidFromStr(GuidErrorKind::Hex(30))));
    let e: InnerError = uefi::data_types::FromSliceWithNulError::InteriorNul(7).into();
    assert!(matches!(e, InnerError::FromSliceWithNul(NulSliceErrorKind::InteriorNul(7))));
}

#[test]
fn cause_messages_are_exact() {
    assert_eq!(InnerError::Ucs2(Ucs2ErrorKind::BufferOverflow).to_string(), "BufferOverflow");
    assert_eq!(
        InnerError::GuidFromStr(GuidErrorKind::Length).to_string(),
        "GUID string has wrong length (expected 36 bytes)"
    );
    assert_eq!(
        InnerError::GuidFromStr(GuidErrorKind::Separator(13)).to_string(),
        "GUID string is missing a separator (`-`) at index 13"
    );
    assert_eq!(
        InnerError::GuidFromStr(GuidErrorKind::Hex(0)).to_string(),
        "GUID string contains invalid ASCII hex at index 0"
    );
    assert_eq!(
        InnerError::FromSliceWithNul(NulSliceErrorKind::InvalidChar(12)).to_string(),
        "InvalidChar(12)"
    );
    assert_eq!(
        InnerError::FromSliceWithNul(NulSliceErrorKind::InteriorNul(305)).to_string(),
        "InteriorNul(305)"
    );
}

#[test]
fn decode_undoes_ucs2_encoding() {
    for t in ["", "EFI Shell", "Boot0001", "café", "Ωmega", "Aあ", "日本語abc", "日本"] {
        let units: Vec<u16> = t.chars().map(|c| c as u32 as u16).collect();
        let r = ucs2_decode(&units);
        if t.len() <= 2 * t.chars().count() {
            assert_eq!(r.ok().unwrap(), t);
        } else {
            assert_eq!(r.err().unwrap().context(), "Failed to decode ucs2");
        }
    }
}

#[test]
fn outside_errors_convert_to_their_kinds() {
    assert!(matches!(
        InnerError::from(ucs2::Error::MultiByte),
        InnerError::Ucs2(Ucs2ErrorKind::MultiByte)
    ));
    assert!(matches!(
        InnerError::from(uguid::GuidFromStrError::Hex(10)),
        InnerError::GuidFromStr(GuidErrorKind::Hex(10))
    ));
    assert!(matches!(
        InnerError::from(uefi::data_types::FromSliceWithNulError::InteriorNul(3)),
        InnerError::FromSliceWithNul(NulSliceErrorKind::InteriorNul(3))
    ));
    match InnerError::from(uefi::Error::from(uefi::Status::NOT_READY)) {
        InnerError::Uefi(s) => assert_eq!(s.code(), uefi::Status::NOT_READY.0),
        _ => panic!("expected a UEFI cause"),
    }
}

#[test]
fn utf8_error_message_is_passed_on() {
    let e = String::from_utf8(vec![0xFF]).err().unwrap();
    let expected = format!("{}", e);
    let inner = InnerError::from(e);
    assert_eq!(inner.to_string(), expected);
    let err = Error::new("Failed to decode utf8", inner);
    assert_eq!(err.to_string(), format!("Context: Failed to decode utf8, Error: {}", expected));
}
