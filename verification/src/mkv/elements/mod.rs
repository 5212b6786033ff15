//! The element model.

pub mod parser;

pub use crate::elements::{Type, ElementContent, Element};
