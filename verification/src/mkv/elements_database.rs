//! The element table.

pub use crate::elements::database::{Class, id_to_class, class_to_id, class_to_type};
