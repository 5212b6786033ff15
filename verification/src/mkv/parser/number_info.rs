//! Reading an EBML number both as an ID and as a size at once.

use vstd::prelude::*;
use crate::numbers::be_value;
use crate::elements::parser::parse_ebml_number::{
    parse_ebml_number as read_number, Mode, Result, spec_ebml_result, ebml_width, ebml_value_bytes,
};

verus! {

/// An EBML number read both ways, and its width.
#[derive(Debug, Eq, PartialEq, Clone, Copy, Structural)]
pub struct EbmlNumberInfo {
    /// Read as an ID (the width marker kept).
    pub as_id: u64,
    /// Read as a size (the width marker removed).
    pub as_unsigned: u64,
    pub length_in_bytes: usize,
}

/// The outcome of reading an EBML number both ways.
#[derive(Debug, Eq, PartialEq, Clone, Copy, Structural)]
pub enum EbmlParseNumberResult {
    Number(EbmlNumberInfo),
    /// The value bits are all ones; the width of the number.
    NaN(isize),
    /// No valid width, or not enough bytes.
    Error,
}

/// The outcome of reading an EBML number both ways at the start of `bytes`.
pub open spec fn spec_number_info(bytes: Seq<u8>) -> EbmlParseNumberResult {
    match spec_ebml_result(bytes, Mode::Unsigned) {
        Result::Number(x) => EbmlParseNumberResult::Number(EbmlNumberInfo {
            as_id: be_value(ebml_value_bytes(bytes, Mode::Identifier)) as u64,
            as_unsigned: x,
            length_in_bytes: ebml_width(bytes[0]) as usize,
        }),
        Result::NaN => EbmlParseNumberResult::NaN(ebml_width(bytes[0]) as isize),
        _ => EbmlParseNumberResult::Error,
    }
}

/// Reads the EBML number at the start of `bytes` as an ID and as a size.
pub fn parse_ebml_number(bytes: Vec<u8>) -> (r: EbmlParseNumberResult)
    ensures
        r == spec_number_info(bytes@),
{
    let (r1, rest) = read_number(bytes.as_slice(), Mode::Unsigned);
    let width = bytes.len() - rest.len();
    match r1 {
        Result::Number(x) => {
            let (r2, _) = read_number(bytes.as_slice(), Mode::Identifier);
            match r2 {
                Result::Number(id) => EbmlParseNumberResult::Number(
                    EbmlNumberInfo { as_id: id, as_unsigned: x, length_in_bytes: width },
                ),
                _ => EbmlParseNumberResult::Error,
            }
        },
        Result::NaN => EbmlParseNumberResult::NaN(width as isize),
        _ => EbmlParseNumberResult::Error,
    }
}

} // verus!
