use vvcore::text::{c_string, native_text, nul_terminated};
use vvcore::Error;

#[test]
fn a_text_gets_its_bytes_and_a_terminator() {
    assert_eq!(c_string("abc"), Ok(vec![97, 98, 99, 0]));
    assert_eq!(
        c_string("open_jtalk_dic_utf_8-1.11").unwrap(),
        b"open_jtalk_dic_utf_8-1.11\0".to_vec()
    );
}

#[test]
fn the_empty_text_is_the_terminator_alone() {
    assert_eq!(c_string(""), Ok(vec![0]));
    assert_eq!(nul_terminated(&[]), Ok(vec![0]));
}

#[test]
fn a_text_outside_ascii_is_given_as_utf8() {
    let expected: Vec<u8> = vec![
        0xe3, 0x81, 0x93, 0xe3, 0x82, 0x93, 0xe3, 0x81, 0xab, 0xe3, 0x81, 0xa1, 0xe3, 0x81, 0xaf,
        0x00,
    ];
    assert_eq!(c_string("こんにちは"), Ok(expected));
}

#[test]
fn a_zero_byte_is_found_where_it_first_stands() {
    assert_eq!(c_string("a\0b"), Err(Error::InteriorNul(1)));
    assert_eq!(c_string("\0"), Err(Error::InteriorNul(0)));
    assert_eq!(c_string("ab\0"), Err(Error::InteriorNul(2)));
    assert_eq!(c_string("a\0b\0c"), Err(Error::InteriorNul(1)));
    assert_eq!(c_string("こ\0"), Err(Error::InteriorNul(3)));
}

#[test]
fn bytes_need_not_be_text_to_be_terminated() {
    assert_eq!(nul_terminated(&[0xff, 0x01]), Ok(vec![0xff, 0x01, 0x00]));
    assert_eq!(nul_terminated(&[0xff, 0x00, 0x01]), Err(Error::InteriorNul(1)));
}

#[test]
fn what_is_terminated_ends_at_its_only_zero_byte() {
    let terminated = c_string("voicevox").unwrap();
    assert_eq!(terminated.len(), 9);
    assert_eq!(terminated.iter().filter(|byte| **byte == 0).count(), 1);
    assert_eq!(terminated.last(), Some(&0));
}

#[test]
fn text_of_the_engine_is_read_as_utf8() {
    assert_eq!(native_text(b"0.14.1"), Ok("0.14.1"));
    assert_eq!(native_text(b""), Ok(""));
    assert_eq!(
        native_text(&[0xe3, 0x81, 0x93, 0xe3, 0x82, 0x93]),
        Ok("こん")
    );
    assert_eq!(native_text(b"[{\"name\":\"x\"}]"), Ok("[{\"name\":\"x\"}]"));
}

#[test]
fn bytes_that_are_no_utf8_are_no_text() {
    assert_eq!(native_text(&[0xff]), Err(Error::InvalidUtf8));
    assert_eq!(native_text(&[0xe3, 0x81]), Err(Error::InvalidUtf8));
    assert_eq!(native_text(&[0x61, 0xc0, 0x80]), Err(Error::InvalidUtf8));
    assert_eq!(native_text(&[0xed, 0xa0, 0x80]), Err(Error::InvalidUtf8));
}

#[test]
fn a_text_comes_back_as_it_went() {
    let sent = c_string("こんにちは").unwrap();
    let without_terminator = &sent[..sent.len() - 1];
    assert_eq!(native_text(without_terminator), Ok("こんにちは"));
}
