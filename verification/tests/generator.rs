use mkv::elements::database::Class;
use mkv::elements::generator::{
    generate, generate_big_endian_number, generate_big_endian_number_s, generate_ebml_number, is_generatable,
    EbmlNumberMode,
};
use mkv::elements::parser::decode::{decode_signed, decode_unsigned};
use mkv::elements::parser::parse_ebml_number::{parse_ebml_number, Mode, Result};
use mkv::elements::{el, el_bin, el_flo, el_sig, el_txt, el_uns, Element, ElementContent, FloatBits};
use std::rc::Rc;

fn bin(c: Class, d: Vec<u8>) -> Element {
    Element { class: c, content: ElementContent::Binary(Rc::new(d)) }
}

#[test]
fn generator_t1() {
    assert_eq!(generate(&bin(Class::Void, vec![])), vec![0xEC, 0x80]);
}

#[test]
fn generator_t2() {
    assert_eq!(generate(&bin(Class::Void, vec![0xFF])), vec![0xEC, 0x81, 0xFF]);
}

#[test]
fn generator_t3() {
    assert_eq!(generate(&bin(Class::Void, vec![0x00, 0x01])), vec![0xEC, 0x82, 0x00, 0x01]);
}

#[test]
fn generator_t4() {
    let mut payload = vec![0x81, 0x00];
    payload.extend_from_slice(&[0xFF; 0x5000]);
    let mut expected = vec![0xA3, 0x20, 0x50, 0x02, 0x81, 0x00];
    expected.extend_from_slice(&[0xFF; 0x5000]);
    assert_eq!(generate(&bin(Class::SimpleBlock, payload)), expected);
}

#[test]
fn big_endian_numbers() {
    assert_eq!(generate_big_endian_number(0), vec![0]);
    assert_eq!(generate_big_endian_number(0xFF), vec![0xFF]);
    assert_eq!(generate_big_endian_number(0x100), vec![1, 0]);
    assert_eq!(generate_big_endian_number(u64::MAX), vec![0xFF; 8]);
    assert_eq!(generate_big_endian_number_s(-1), vec![0xFF]);
    assert_eq!(generate_big_endian_number_s(127), vec![0x7F]);
    assert_eq!(generate_big_endian_number_s(128), vec![0x00, 0x80]);
    assert_eq!(generate_big_endian_number_s(-129), vec![0xFF, 0x7F]);
    assert_eq!(generate_big_endian_number_s(i64::MIN), vec![0x80, 0, 0, 0, 0, 0, 0, 0]);
}

#[test]
fn ebml_numbers() {
    assert_eq!(generate_ebml_number(0x1A45DFA3, EbmlNumberMode::Identifier), vec![0x1A, 0x45, 0xDF, 0xA3]);
    assert_eq!(generate_ebml_number(0, EbmlNumberMode::Unsigned), vec![0x80]);
    assert_eq!(generate_ebml_number(126, EbmlNumberMode::Unsigned), vec![0xFE]);
    assert_eq!(generate_ebml_number(127, EbmlNumberMode::Unsigned), vec![0x40, 0x7F]);
    assert_eq!(generate_ebml_number(u64::MAX, EbmlNumberMode::Unsigned), vec![0xFF]);
    assert_eq!(generate_ebml_number(0x00FFFFFFFFFFFFFE, EbmlNumberMode::Unsigned),
               vec![0x01, 0xFF, 0xFF, 0xFF, 0xFF, 0xFF, 0xFF, 0xFE]);
}

#[test]
fn sizes_read_back() {
    for x in [0u64, 1, 126, 127, 0x3FFE, 0x3FFF, 0x1FFFFE, 0x12345678, 0x00FFFFFFFFFFFFFE] {
        let bytes = generate_ebml_number(x, EbmlNumberMode::Unsigned);
        let (r, rest) = parse_ebml_number(&bytes, Mode::Unsigned);
        assert_eq!(r, Result::Number(x));
        assert!(rest.is_empty());
    }
    let bytes = generate_ebml_number(u64::MAX, EbmlNumberMode::Unsigned);
    assert_eq!(parse_ebml_number(&bytes, Mode::Unsigned).0, Result::NaN);
}

#[test]
fn payload_numbers_read_back() {
    for x in [0u64, 1, 255, 256, 0xDEADBEEF, u64::MAX] {
        assert_eq!(decode_unsigned(&generate_big_endian_number(x)), x);
    }
    for x in [0i64, 1, 127, 128, 0x7FFFFFFF, i64::MAX] {
        assert_eq!(decode_signed(&generate_big_endian_number_s(x)), x);
    }
}

#[test]
fn negative_payloads_read_as_sign_and_magnitude() {
    assert_eq!(decode_signed(&generate_big_endian_number_s(-1)), -127);
    assert_eq!(decode_signed(&[0x80]), 0);
}

#[test]
fn nested_elements() {
    let e = el(Class::Cluster, vec![el_uns(Class::Timecode, 100), el_sig(Class::ReferenceBlock, -2)]);
    assert_eq!(generate(&e), vec![0x1F, 0x43, 0xB6, 0x75, 0x86, 0xE7, 0x81, 100, 0xFB, 0x81, 0xFE]);
}

#[test]
fn text_and_float_elements() {
    assert_eq!(generate(&el_txt(Class::CodecID, "AB".to_string())), vec![0x86, 0x82, b'A', b'B']);
    assert_eq!(generate(&el_flo(Class::Duration, FloatBits::Single(116.0f32.to_bits()))),
               vec![0x44, 0x89, 0x84, 0x42, 0xE8, 0x00, 0x00]);
}

#[test]
fn unknown_elements_keep_their_id() {
    let e = Element { class: Class::Unknown, content: ElementContent::Unknown(0x4321, Rc::new(vec![9])) };
    assert!(is_generatable(&e));
    assert_eq!(generate(&e), vec![0x43, 0x21, 0x81, 9]);
    let bad = el_bin(Class::Unknown, vec![1]);
    assert!(!is_generatable(&bad));
    assert!(!is_generatable(&el(Class::Cluster, vec![bad])));
}

#[test]
fn double_floats_are_not_written() {
    assert!(is_generatable(&el_flo(Class::Duration, FloatBits::Single(0))));
    assert!(!is_generatable(&el_flo(Class::Duration, FloatBits::Double(0))));
    assert!(!is_generatable(&el(Class::Info, vec![el_flo(Class::Duration, FloatBits::Double(0))])));
    assert_eq!(generate(&el_flo(Class::Duration, FloatBits::Single(0))).len(), 7);
}
