//! The parser, and reading EBML numbers.

pub mod number_info;

pub use crate::elements::parser::parse_ebml_number;
pub use crate::elements::parser::parse_ebml_number::{Result, Mode};
pub use super::elements::parser::{ParserState, ParserMode};
