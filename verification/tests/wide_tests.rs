use open_share::wide::{read_units, str_to_wcstring, wcstr_to_string, with_terminator, WideError};

fn bytes_of(units: &[u16]) -> Vec<u8> {
    let mut bytes = Vec::new();
    for unit in units {
        bytes.push((unit & 0xff) as u8);
        bytes.push((unit >> 8) as u8);
    }
    bytes
}

#[test]
fn wide_form_ends_with_zero() {
    assert_eq!(str_to_wcstring("ab"), vec![0x61, 0x62, 0]);
    assert_eq!(str_to_wcstring(""), vec![0]);
}

#[test]
fn wide_form_of_a_share_path() {
    assert_eq!(
        str_to_wcstring("\\\\srv\\x"),
        vec![0x5c, 0x5c, 0x73, 0x72, 0x76, 0x5c, 0x78, 0]
    );
}

#[test]
fn wide_form_uses_surrogate_pairs() {
    assert_eq!(str_to_wcstring("\u{1F600}"), vec![0xD83D, 0xDE00, 0]);
    assert_eq!(str_to_wcstring("é"), vec![0xE9, 0]);
}

#[test]
fn reads_a_string_up_to_its_terminator() {
    let bytes = bytes_of(&[0x68, 0x69, 0, 0x7a, 0]);
    assert_eq!(wcstr_to_string(&bytes, 0), Ok(String::from("hi")));
    assert_eq!(wcstr_to_string(&bytes, 2), Ok(String::from("i")));
    assert_eq!(wcstr_to_string(&bytes, 4), Ok(String::new()));
    assert_eq!(wcstr_to_string(&bytes, 6), Ok(String::from("z")));
}

#[test]
fn reads_units_low_byte_first() {
    let bytes = vec![0x34, 0x12, 0, 0];
    assert_eq!(wcstr_to_string(&bytes, 0), Ok(String::from("\u{1234}")));
}

#[test]
fn reads_a_string_at_an_odd_offset() {
    let bytes = vec![0xff, 0x41, 0x00, 0x00, 0x00];
    assert_eq!(wcstr_to_string(&bytes, 1), Ok(String::from("A")));
}

#[test]
fn reads_back_what_was_encoded() {
    for text in ["\\\\srv\\docs", "", "Ärger \u{1F600}"] {
        let bytes = bytes_of(&str_to_wcstring(text));
        assert_eq!(wcstr_to_string(&bytes, 0), Ok(String::from(text)));
    }
}

#[test]
fn refuses_a_string_without_terminator() {
    let bytes = bytes_of(&[0x68, 0x69]);
    assert_eq!(wcstr_to_string(&bytes, 0), Err(WideError::Unterminated));
    assert_eq!(wcstr_to_string(&[], 0), Err(WideError::Unterminated));
    assert_eq!(wcstr_to_string(&[0], 0), Err(WideError::Unterminated));
}

#[test]
fn refuses_an_offset_beyond_the_buffer() {
    let bytes = bytes_of(&[0x68, 0]);
    assert_eq!(wcstr_to_string(&bytes, 3), Err(WideError::Unterminated));
    assert_eq!(wcstr_to_string(&bytes, 4), Err(WideError::Unterminated));
    assert_eq!(wcstr_to_string(&bytes, usize::MAX), Err(WideError::Unterminated));
}

#[test]
fn refuses_a_terminator_cut_in_half() {
    let bytes = vec![0x41, 0x00, 0x00];
    assert_eq!(wcstr_to_string(&bytes, 0), Err(WideError::Unterminated));
}

#[test]
fn refuses_a_lone_surrogate() {
    let bytes = bytes_of(&[0x61, 0xD800, 0x62, 0]);
    assert_eq!(wcstr_to_string(&bytes, 0), Err(WideError::Malformed));
    let bytes = bytes_of(&[0xDC00, 0]);
    assert_eq!(wcstr_to_string(&bytes, 0), Err(WideError::Malformed));
}

#[test]
fn with_terminator_appends_one_zero() {
    assert_eq!(with_terminator(vec![7, 8]), vec![7, 8, 0]);
    assert_eq!(with_terminator(Vec::new()), vec![0]);
    assert_eq!(with_terminator(vec![0]), vec![0, 0]);
}

#[test]
fn read_units_stops_at_the_first_zero_unit() {
    let bytes = bytes_of(&[0x0100, 0xD800, 0x0001, 0, 0x41, 0]);
    assert_eq!(read_units(&bytes, 0), Some(vec![0x0100, 0xD800, 0x0001]));
    assert_eq!(read_units(&bytes, 6), Some(vec![]));
    assert_eq!(read_units(&bytes, 8), Some(vec![0x41]));
    assert_eq!(read_units(&bytes, 1), Some(vec![0x0001, 0x01D8]));
    assert_eq!(read_units(&bytes[..6], 0), None);
    assert_eq!(read_units(&bytes, 12), None);
}
