use gfxfilemanager::text::{c_string, decode, find_nul, text_of_len, text_until_nul};
use gfxfilemanager::Error;

#[test]
fn c_string_appends_one_zero_byte() {
    assert_eq!(c_string("pw"), Ok(vec![b'p', b'w', 0]));
    assert_eq!(c_string("archive.pk2"), Ok(b"archive.pk2\0".to_vec()));
    assert_eq!(c_string(""), Ok(vec![0]));
}

#[test]
fn c_string_keeps_the_utf8_bytes() {
    assert_eq!(c_string("\u{e4}"), Ok(vec![0xC3, 0xA4, 0]));
    assert_eq!(c_string("a\u{20ac}b"), Ok(vec![b'a', 0xE2, 0x82, 0xAC, b'b', 0]));
}

#[test]
fn c_string_rejects_an_embedded_zero_byte() {
    assert_eq!(c_string("a\0b"), Err(Error::Encoding));
    assert_eq!(c_string("\0"), Err(Error::Encoding));
    assert_eq!(c_string("ab\0"), Err(Error::Encoding));
}

#[test]
fn find_nul_gives_the_first_zero_byte() {
    assert_eq!(find_nul(b"abc"), None);
    assert_eq!(find_nul(b""), None);
    assert_eq!(find_nul(b"\0"), Some(0));
    assert_eq!(find_nul(b"ab\0cd\0"), Some(2));
}

#[test]
fn text_until_nul_stops_at_the_first_zero_byte() {
    assert_eq!(text_until_nul(b"a.txt\0garbage\0"), Ok("a.txt".to_string()));
    assert_eq!(text_until_nul(b"\0abc"), Ok(String::new()));
    let mut buffer = vec![0xAAu8; 512];
    buffer[..7].copy_from_slice(b"a/b.txt");
    buffer[7] = 0;
    assert_eq!(text_until_nul(&buffer), Ok("a/b.txt".to_string()));
}

#[test]
fn text_until_nul_without_a_zero_byte_is_truncated() {
    assert_eq!(text_until_nul(b"abc"), Err(Error::Truncated));
    assert_eq!(text_until_nul(b""), Err(Error::Truncated));
    assert_eq!(text_until_nul(&[0xFFu8; 89]), Err(Error::Truncated));
}

#[test]
fn text_until_nul_checks_the_encoding_of_the_text_only() {
    assert_eq!(text_until_nul(&[0xFF, 0x00]), Err(Error::Encoding));
    assert_eq!(text_until_nul(&[b'a', 0x00, 0xFF]), Ok("a".to_string()));
    assert_eq!(text_until_nul(&[0xC3, 0xA4, 0x00]), Ok("\u{e4}".to_string()));
    assert_eq!(text_until_nul(&[0xC3, 0x00]), Err(Error::Encoding));
}

#[test]
fn text_of_len_takes_the_reported_length() {
    assert_eq!(text_of_len(b"data/xyz", 4), Ok("data".to_string()));
    assert_eq!(text_of_len(b"data", 4), Ok("data".to_string()));
    assert_eq!(text_of_len(b"data", 0), Ok(String::new()));
    assert_eq!(text_of_len(b"da\0ta", 5), Ok("da\0ta".to_string()));
}

#[test]
fn text_of_len_outside_the_buffer_is_truncated() {
    assert_eq!(text_of_len(b"data", 5), Err(Error::Truncated));
    assert_eq!(text_of_len(b"data", -1), Err(Error::Truncated));
    assert_eq!(text_of_len(b"data", i32::MIN), Err(Error::Truncated));
    assert_eq!(text_of_len(b"", 1), Err(Error::Truncated));
}

#[test]
fn text_of_len_checks_the_encoding() {
    assert_eq!(text_of_len(&[0xE2, 0x82, 0xAC], 3), Ok("\u{20ac}".to_string()));
    assert_eq!(text_of_len(&[0xE2, 0x82, 0xAC], 2), Err(Error::Encoding));
}

#[test]
fn decode_gives_the_text_and_not_the_bytes() {
    assert_eq!(decode(vec![0x68, 0x69]), Ok("hi".to_string()));
    assert_eq!(decode(vec![0xF0, 0x9F, 0x98, 0x80]).map(|s| s.chars().count()), Ok(1));
    assert_eq!(decode(Vec::new()), Ok(String::new()));
}

#[test]
fn decode_rejects_what_is_no_utf8() {
    assert_eq!(decode(vec![0x80]), Err(Error::Encoding));
    assert_eq!(decode(vec![0xC0, 0xAF]), Err(Error::Encoding));
    assert_eq!(decode(vec![0xED, 0xA0, 0x80]), Err(Error::Encoding));
    assert_eq!(decode(vec![0xF4, 0x90, 0x80, 0x80]), Err(Error::Encoding));
    assert_eq!(decode(vec![b'a', 0xE2, 0x82]), Err(Error::Encoding));
}

#[test]
fn what_is_marshalled_reads_back() {
    for text in ["", "a", "a/b.txt", "\u{e4}\u{20ac}", "*.txt"] {
        let wire = c_string(text).unwrap();
        assert_eq!(text_until_nul(&wire), Ok(text.to_string()));
    }
}
