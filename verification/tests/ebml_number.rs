use mkv::mkv::parser::number_info::{parse_ebml_number as parse_both, EbmlNumberInfo, EbmlParseNumberResult};
use mkv::mkv::parser::parse_ebml_number::parse_ebml_number;
use mkv::mkv::parser::{Mode, Result};

fn unwrap_ebmlpr(x: EbmlParseNumberResult) -> EbmlNumberInfo {
    match x {
        EbmlParseNumberResult::Number(y) => y,
        _ => panic!("Expected successfull parse"),
    }
}

fn unwrap_nan(x: EbmlParseNumberResult) -> isize {
    match x {
        EbmlParseNumberResult::NaN(y) => y,
        _ => panic!("Expected NaN"),
    }
}

#[test]
fn test_parse_ebml_number_test_1() {
    let input = [0x1A, 0x45, 0xDF, 0xA3];
    let (r, rest) = parse_ebml_number(&input, Mode::Identifier);
    assert_eq!(r, Result::Number(0x1A45DFA3));
    assert_eq!(rest, []);
}

#[test]
fn test_parse_ebml_number_test_2() {
    let input = [0x1A, 0x45, 0xDF, 0xA3];
    let (r, rest) = parse_ebml_number(&input, Mode::Unsigned);
    assert_eq!(r, Result::Number(0x0A45DFA3));
    assert_eq!(rest, []);
}

#[test]
fn test_parse_ebml_number_test_3() {
    let input = [0x4A, 0x45, 0xDF, 0xA3];
    let (r, rest) = parse_ebml_number(&input, Mode::Unsigned);
    assert_eq!(r, Result::Number(0x0A45));
    assert_eq!(rest, [0xDF, 0xA3]);
}

#[test]
fn test_parse_ebml_number_test_4() {
    let input = [0xFF, 0x7F];
    let (r, rest) = parse_ebml_number(&input, Mode::Unsigned);
    assert_eq!(r, Result::NaN);
    assert_eq!(rest, [0x7F]);
}

#[test]
fn test_parse_ebml_number_test_5() {
    let input = [0x7F, 0xFF];
    let (r, rest) = parse_ebml_number(&input, Mode::Unsigned);
    assert_eq!(r, Result::NaN);
    assert_eq!(rest, []);
}

#[test]
fn parse_ebml_number_test_6() {
    let input = [0x00];
    let (r, _rest) = parse_ebml_number(&input, Mode::Unsigned);
    assert_eq!(r, Result::Error);
}

#[test]
fn parse_ebml_number_test_7() {
    let input = [0x40];
    let (r, _rest) = parse_ebml_number(&input, Mode::Unsigned);
    assert_eq!(r, Result::NotEnoughData);
}

#[test]
fn parse_ebml_number_test_8() {
    let input: [u8; 0] = [];
    let (r, _rest) = parse_ebml_number(&input, Mode::Identifier);
    assert_eq!(r, Result::NotEnoughData);
}

#[test]
fn tests_parse_ebml_number_test_1() {
    let rr = parse_both(vec![0x1A, 0x45, 0xDF, 0xA3]);
    let r = unwrap_ebmlpr(rr);
    assert_eq!(r.as_id, 0x1A45DFA3);
    assert_eq!(r.as_unsigned, 0x0A45DFA3);
    assert_eq!(r.length_in_bytes, 4);
}

#[test]
fn parse_ebml_number_test_1b() {
    let rr = parse_both(vec![0x4A, 0x45, 0xDF, 0xA3]);
    let r = unwrap_ebmlpr(rr);
    assert_eq!(r.as_id, 0x4A45);
    assert_eq!(r.as_unsigned, 0x0A45);
    assert_eq!(r.length_in_bytes, 2);
}

#[test]
fn tests_parse_ebml_number_test_2() {
    let rr = parse_both(vec![0xFF, 0x7F]);
    let r = unwrap_nan(rr);
    assert_eq!(r, 1);
}

#[test]
fn tests_parse_ebml_number_test_3() {
    let rr = parse_both(vec![0x7F, 0xFF]);
    let r = unwrap_nan(rr);
    assert_eq!(r, 2);
}

#[test]
fn tests_parse_ebml_number_test_4() {
    let rr = parse_both(vec![0x00]);
    match rr {
        EbmlParseNumberResult::Error => (),
        _ => panic!("Expected error"),
    }
}

#[test]
fn tests_parse_ebml_number_test_5() {
    let rr = parse_both(vec![0x40]);
    match rr {
        EbmlParseNumberResult::Error => (),
        _ => panic!("Expected error"),
    }
}

#[test]
fn eight_byte_number() {
    let input = [0x01, 0x02, 0x03, 0x04, 0x05, 0x06, 0x07, 0x08, 0x09];
    let (r, rest) = parse_ebml_number(&input, Mode::Unsigned);
    assert_eq!(r, Result::Number(0x02030405060708));
    assert_eq!(rest, [0x09]);
    let (r, rest) = parse_ebml_number(&input, Mode::Identifier);
    assert_eq!(r, Result::Number(0x0102030405060708));
    assert_eq!(rest, [0x09]);
}

#[test]
fn unknown_size_of_every_width() {
    let mut v = vec![0xFFu8];
    assert_eq!(parse_ebml_number(&v, Mode::Unsigned).0, Result::NaN);
    for w in 2..=8usize {
        v = vec![0xFF; w];
        v[0] = 0xFF >> (w - 1);
        assert_eq!(parse_ebml_number(&v, Mode::Unsigned).0, Result::NaN);
        assert_eq!(unwrap_nan(parse_both(v.clone())), w as isize);
    }
}

#[test]
fn all_ones_is_unknown_in_both_modes() {
    let (r, rest) = parse_ebml_number(&[0xFF, 0x12], Mode::Identifier);
    assert_eq!(r, Result::NaN);
    assert_eq!(rest, [0x12]);
}
