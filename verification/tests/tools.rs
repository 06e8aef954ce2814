use efiutils::efivar::{
    build_edit_request, checked_patch_value, efivar_command, parse_edit_request, patch_value,
    EfivarCommand, PatchFault,
};
use efiutils::error::{GuidErrorKind, InnerError};
use efiutils::handles::{plan_forms, read_form_arg, unique_handles, FormPlan, FormStop};

fn units(s: &str) -> Vec<u16> {
    s.encode_utf16().collect()
}

fn edit_args(guid: &str, name: &str, offset: &str, width: &str, value: &str) -> Vec<Vec<u16>> {
    vec![
        units("efivar.efi"),
        units(guid),
        units(name),
        units(offset),
        units(width),
        units(value),
    ]
}

const GUID: &str = "8be4df61-93ca-11d2-aa0d-00e098032b8c";

#[test]
fn command_for_argument_count() {
    assert_eq!(efivar_command(6), EfivarCommand::Edit);
    assert_eq!(efivar_command(1), EfivarCommand::List);
    assert_eq!(efivar_command(0), EfivarCommand::Usage);
    assert_eq!(efivar_command(2), EfivarCommand::Usage);
    assert_eq!(efivar_command(7), EfivarCommand::Usage);
}

#[test]
fn edit_request_is_read() {
    let req = parse_edit_request(&edit_args(GUID, "Boot0000", "4", "2", "4660"))
        .ok()
        .unwrap();
    assert_eq!(
        req.guid,
        [
            0x61, 0xdf, 0xe4, 0x8b, 0xca, 0x93, 0xd2, 0x11, 0xaa, 0x0d, 0x00, 0xe0, 0x98, 0x03,
            0x2b, 0x8c
        ]
    );
    assert_eq!(req.guid, uguid::Guid::try_parse(GUID).unwrap().to_bytes());
    assert_eq!(req.name, "Boot0000");
    assert_eq!(req.offset, 4);
    assert_eq!(req.width, 2);
    assert_eq!(req.value, 4660);
}

#[test]
fn edit_request_accepts_plus_sign_and_upper_case_guid() {
    let req = parse_edit_request(&edit_args(
        "8BE4DF61-93CA-11D2-AA0D-00E098032B8C",
        "Lang",
        "+0",
        "+8",
        "18446744073709551615",
    ))
    .ok()
    .unwrap();
    assert_eq!(req.guid, uguid::Guid::try_parse(GUID).unwrap().to_bytes());
    assert_eq!(req.offset, 0);
    assert_eq!(req.width, 8);
    assert_eq!(req.value, u64::MAX);
}

#[test]
fn edit_request_bad_guid() {
    let err = parse_edit_request(&edit_args("8be4df61", "x", "1", "1", "1"))
        .err()
        .unwrap();
    assert_eq!(err.context(), "Failed to parse guid");
    assert!(matches!(err.inner(), InnerError::GuidFromStr(_)));
}

#[test]
fn edit_request_bad_offset() {
    let err = parse_edit_request(&edit_args(GUID, "x", "four", "1", "1"))
        .err()
        .unwrap();
    assert_eq!(err.context(), "Failed to parse offset");
    assert!(matches!(err.inner(), InnerError::ParseInt(_)));
}

#[test]
fn edit_request_bad_width() {
    let err = parse_edit_request(&edit_args(GUID, "x", "1", "-1", "1"))
        .err()
        .unwrap();
    assert_eq!(err.context(), "Failed to parse width");
}

#[test]
fn edit_request_value_too_large() {
    let err = parse_edit_request(&edit_args(GUID, "x", "1", "1", "18446744073709551616"))
        .err()
        .unwrap();
    assert_eq!(err.context(), "Failed to parse value");
    assert!(matches!(err.inner(), InnerError::ParseInt(_)));
}

#[test]
fn edit_request_guid_checked_first() {
    // The GUID is parsed first, so a bad GUID wins over a bad offset.
    let err = parse_edit_request(&edit_args("x", "x", "y", "1", "1"))
        .err()
        .unwrap();
    assert_eq!(err.context(), "Failed to parse guid");
}

#[test]
fn edit_request_undecodable_argument() {
    let mut args = edit_args(GUID, "x", "1", "1", "1");
    args[2] = vec![0x41, 0xDC00];
    let err = parse_edit_request(&args).err().unwrap();
    assert_eq!(err.context(), "Failed to decode utf8");
    args[2] = vec![0x3042];
    let err = parse_edit_request(&args).err().unwrap();
    assert_eq!(err.context(), "Failed to decode ucs2");
}

#[test]
fn patch_writes_most_significant_byte_first() {
    let mut data = vec![0u8; 8];
    patch_value(&mut data, 2, 3, 0x123456);
    assert_eq!(data, vec![0, 0, 0x12, 0x34, 0x56, 0, 0, 0]);
}

#[test]
fn patch_truncates_to_width() {
    let mut data = vec![0xEEu8; 4];
    patch_value(&mut data, 1, 2, 0xAABBCCDD);
    assert_eq!(data, vec![0xEE, 0xCC, 0xDD, 0xEE]);
}

#[test]
fn patch_full_width() {
    let mut data = vec![0u8; 8];
    patch_value(&mut data, 0, 8, 0x0102030405060708);
    assert_eq!(data, vec![1, 2, 3, 4, 5, 6, 7, 8]);
}

#[test]
fn patch_zero_width_changes_nothing() {
    let mut data = vec![9u8, 8, 7];
    patch_value(&mut data, 100, 0, 0xFFFF);
    assert_eq!(data, vec![9, 8, 7]);
}

#[test]
fn patch_field_reads_back_as_the_value() {
    for width in 0..=8usize {
        let value: u64 = 0xF1E2D3C4B5A69788;
        let mut data = vec![0x55u8; 12];
        patch_value(&mut data, 3, width, value);
        let mut read: u128 = 0;
        for b in &data[3..3 + width] {
            read = read * 256 + *b as u128;
        }
        let modulus: u128 = 1u128 << (8 * width);
        assert_eq!(read, value as u128 % modulus);
        assert!(data[..3].iter().all(|b| *b == 0x55));
        assert!(data[3 + width..].iter().all(|b| *b == 0x55));
    }
}

#[test]
fn unique_handles_sorts_and_dedups() {
    assert_eq!(unique_handles(vec![3, 1, 3, 0, 2, 0]), vec![0, 1, 2, 3]);
    assert_eq!(unique_handles(vec![]), Vec::<usize>::new());
    assert_eq!(unique_handles(vec![5, 5, 5]), vec![5]);
    assert_eq!(
        unique_handles(vec![usize::MAX, 0, 42]),
        vec![0, 42, usize::MAX]
    );
}

#[test]
fn form_arg_with_index() {
    let arg = read_form_arg(&units("3")).ok().unwrap();
    assert_eq!(arg.text, "3");
    assert_eq!(arg.index, Some(3));
    let arg = read_form_arg(&units("+12")).ok().unwrap();
    assert_eq!(arg.index, Some(12));
}

#[test]
fn form_arg_without_index() {
    let arg = read_form_arg(&units("setup")).ok().unwrap();
    assert_eq!(arg.text, "setup");
    assert_eq!(arg.index, None);
    let arg = read_form_arg(&units("")).ok().unwrap();
    assert_eq!(arg.index, None);
    let arg = read_form_arg(&units(" 1")).ok().unwrap();
    assert_eq!(arg.index, None);
}

#[test]
fn form_arg_undecodable() {
    let err = read_form_arg(&[0x3042]).err().unwrap();
    assert_eq!(err.context(), "Failed to decode ucs2");
}

#[test]
fn build_request_guid_error_comes_first() {
    let err = build_edit_request(
        Err(GuidErrorKind::Separator(8)),
        String::from("x"),
        "bad",
        "bad",
        "bad",
    )
    .err()
    .unwrap();
    assert_eq!(err.context(), "Failed to parse guid");
    assert!(matches!(
        err.inner(),
        InnerError::GuidFromStr(GuidErrorKind::Separator(8))
    ));
}

#[test]
fn build_request_from_parts() {
    let bytes = [7u8; 16];
    let req = build_edit_request(Ok(bytes), String::from("Timeout"), "10", "1", "255")
        .ok()
        .unwrap();
    assert_eq!(req.guid, bytes);
    assert_eq!(req.name, "Timeout");
    assert_eq!(req.offset, 10);
    assert_eq!(req.width, 1);
    assert_eq!(req.value, 255);
}

#[test]
fn build_request_number_errors_in_order() {
    let bytes = [0u8; 16];
    let err = build_edit_request(Ok(bytes), String::new(), "1", "x", "y").err().unwrap();
    assert_eq!(err.context(), "Failed to parse width");
    let err = build_edit_request(Ok(bytes), String::new(), "", "x", "y").err().unwrap();
    assert_eq!(err.context(), "Failed to parse offset");
    let err = build_edit_request(Ok(bytes), String::new(), "1", "2", "+").err().unwrap();
    assert_eq!(err.context(), "Failed to parse value");
}

#[test]
fn edit_request_guid_errors_name_the_place() {
    let cases = [
        ("8be4df61-93ca-11d2-aa0d-00e098032b8", GuidErrorKind::Length),
        ("8be4df61-93ca_11d2-aa0d-00e098032b8c", GuidErrorKind::Separator(13)),
        ("8be4df61-93ca-11d2-aa0d+00e098032b8c", GuidErrorKind::Separator(23)),
        ("8be4dfXX-93ca-11d2-aa0d-00e098032b8c", GuidErrorKind::Hex(6)),
        ("zbe4df61-93ca-11d2-aa0d-00e098032b8c", GuidErrorKind::Hex(0)),
        ("8be4df61-93ca-11d2-aa0d-00e098032b8g", GuidErrorKind::Hex(34)),
    ];
    for (text, kind) in cases {
        let err = parse_edit_request(&edit_args(text, "x", "1", "1", "1")).err().unwrap();
        assert_eq!(err.context(), "Failed to parse guid");
        match err.inner() {
            InnerError::GuidFromStr(k) => assert_eq!(*k, kind),
            _ => panic!("not a GUID error"),
        }
    }
}

fn command_line(args: &[&str]) -> Vec<Vec<u16>> {
    args.iter().map(|a| units(a)).collect()
}

#[test]
fn plan_without_arguments_opens_every_handle() {
    assert!(matches!(plan_forms(&command_line(&["formbrowser"]), 4), FormPlan::EachHandle));
    assert!(matches!(plan_forms(&vec![], 4), FormPlan::EachHandle));
}

#[test]
fn plan_reads_every_argument() {
    match plan_forms(&command_line(&["formbrowser", "2", "setup", "0"]), 3) {
        FormPlan::Arguments { read, stop } => {
            assert!(stop.is_none());
            assert_eq!(read.len(), 3);
            assert_eq!(read[0].text, "2");
            assert_eq!(read[0].index, Some(2));
            assert_eq!(read[1].text, "setup");
            assert_eq!(read[1].index, None);
            assert_eq!(read[2].index, Some(0));
        }
        FormPlan::EachHandle => panic!("expected the arguments"),
    }
}

#[test]
fn plan_stops_at_an_undecodable_argument() {
    let mut args = command_line(&["formbrowser", "1"]);
    args.push(vec![0x3042]);
    args.push(units("0"));
    match plan_forms(&args, 3) {
        FormPlan::Arguments { read, stop } => {
            assert_eq!(read.len(), 1);
            assert_eq!(read[0].index, Some(1));
            match stop {
                Some(FormStop::Undecodable(e)) => {
                    assert_eq!(e.context(), "Failed to decode ucs2")
                }
                _ => panic!("expected a decoding failure"),
            }
        }
        FormPlan::EachHandle => panic!("expected the arguments"),
    }
}

#[test]
fn plan_stops_at_a_handle_past_the_end() {
    match plan_forms(&command_line(&["formbrowser", "1", "5", "0"]), 3) {
        FormPlan::Arguments { read, stop } => {
            assert_eq!(read.len(), 2);
            assert_eq!(read[1].index, Some(5));
            assert!(matches!(stop, Some(FormStop::NoSuchHandle(5))));
        }
        FormPlan::EachHandle => panic!("expected the arguments"),
    }
}

#[test]
fn checked_patch_writes_a_fitting_field() {
    let mut data = vec![0u8; 6];
    assert_eq!(checked_patch_value(&mut data, 2, 3, 0x123456), None);
    assert_eq!(data, vec![0, 0, 0x12, 0x34, 0x56, 0]);
}

#[test]
fn checked_patch_refuses_a_wide_field() {
    let mut data = vec![7u8; 16];
    assert_eq!(checked_patch_value(&mut data, 0, 9, 1), Some(PatchFault::ValueIndex(8)));
    assert_eq!(data, vec![7u8; 16]);
}

#[test]
fn checked_patch_refuses_a_field_past_the_end() {
    let mut data = vec![1u8, 2, 3, 4];
    assert_eq!(checked_patch_value(&mut data, 2, 4, 0), Some(PatchFault::DataIndex(4)));
    assert_eq!(checked_patch_value(&mut data, 9, 1, 0), Some(PatchFault::DataIndex(9)));
    assert_eq!(
        checked_patch_value(&mut data, usize::MAX, 2, 0),
        Some(PatchFault::DataIndex(usize::MAX))
    );
    assert_eq!(data, vec![1u8, 2, 3, 4]);
}

#[test]
fn checked_patch_zero_width_anywhere() {
    let mut data = vec![1u8, 2];
    assert_eq!(checked_patch_value(&mut data, 50, 0, 0xFF), None);
    assert_eq!(data, vec![1u8, 2]);
}
