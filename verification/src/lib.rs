//! Matroska (EBML) parsing, building and writing.

pub mod numbers;
pub mod text;
pub mod elements;
pub mod events;
pub mod mkv;
pub mod mkvparse;
pub mod parse;
