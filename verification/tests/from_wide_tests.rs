use layout_switcher::from_wide::{FromWide, FromWideError};
use layout_switcher::winapi::{WCHAR, KL_NAMELENGTH};
use widestring::U16CStr;

fn wide(s: &str) -> Vec<WCHAR> {
    s.encode_utf16().collect()
}

#[test]
fn layout_name_buffer_decodes_to_its_name() {
    let mut buffer: Vec<WCHAR> = vec![0; KL_NAMELENGTH];
    for (i, unit) in wide("00000409").into_iter().enumerate() {
        buffer[i] = unit;
    }
    assert_eq!(String::from_wide(&buffer).unwrap(), "00000409");
}

#[test]
fn only_units_before_first_nul_are_read() {
    let mut buffer = wide("Layout");
    buffer.push(0);
    buffer.extend(wide("Switcher"));
    buffer.push(0);
    assert_eq!(String::from_wide(&buffer).unwrap(), "Layout");
}

#[test]
fn invalid_units_after_the_nul_are_ignored() {
    let buffer: Vec<WCHAR> = vec![0x0041, 0x0000, 0xD800, 0x0042];
    assert_eq!(String::from_wide(&buffer).unwrap(), "A");
}

#[test]
fn single_nul_gives_empty_string() {
    assert_eq!(String::from_wide(&[0]).unwrap(), "");
}

#[test]
fn surrogate_pair_decodes_to_one_char() {
    let buffer: Vec<WCHAR> = vec![0xD83D, 0xDE00, 0x0021, 0x0000];
    assert_eq!(String::from_wide(&buffer).unwrap(), "\u{1F600}!");
}

#[test]
fn non_ascii_bmp_text_round_trips() {
    let text = "Русская раскладка";
    let mut buffer = wide(text);
    buffer.push(0);
    buffer.push(0x1234);
    assert_eq!(String::from_wide(&buffer).unwrap(), text);
}

#[test]
fn missing_nul_is_reported() {
    let buffer = wide("no terminator");
    assert!(matches!(
        String::from_wide(&buffer),
        Err(FromWideError::MissingNulTerminator(_))
    ));
}

#[test]
fn empty_buffer_lacks_a_nul() {
    assert!(matches!(
        String::from_wide(&[]),
        Err(FromWideError::MissingNulTerminator(_))
    ));
}

#[test]
fn lone_high_surrogate_is_reported() {
    let buffer: Vec<WCHAR> = vec![0x0041, 0xD800, 0x0042, 0x0000];
    assert!(matches!(
        String::from_wide(&buffer),
        Err(FromWideError::Utf16Error(_))
    ));
}

#[test]
fn lone_low_surrogate_is_reported() {
    let buffer: Vec<WCHAR> = vec![0xDC00, 0x0000];
    match String::from_wide(&buffer) {
        Err(FromWideError::Utf16Error(e)) => assert_eq!(e.index(), 0),
        other => panic!("unexpected result: {:?}", other),
    }
}

#[test]
fn high_surrogate_right_before_nul_is_reported() {
    let buffer: Vec<WCHAR> = vec![0x0041, 0xDBFF, 0x0000, 0xDC00];
    assert!(matches!(
        String::from_wide(&buffer),
        Err(FromWideError::Utf16Error(_))
    ));
}

#[test]
fn from_converts_outside_errors() {
    let missing = U16CStr::from_slice_truncate(&[0x0041]).unwrap_err();
    assert!(matches!(
        FromWideError::from(missing),
        FromWideError::MissingNulTerminator(_)
    ));
    let invalid = U16CStr::from_slice_truncate(&[0xD800, 0])
        .unwrap()
        .to_string()
        .unwrap_err();
    assert!(matches!(
        FromWideError::from(invalid),
        FromWideError::Utf16Error(_)
    ));
}
