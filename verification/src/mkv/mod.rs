//! An interface in which a parser owns its event handler. It runs on the
//! same parser as `elements`.

pub mod parser;
pub mod elements;
pub mod elements_database;

use vstd::prelude::*;

pub use crate::elements::Type as ElementType;
pub use crate::elements::parser::Info as ElementInfo;
pub use crate::elements::parser::SimpleContent as SimpleElementContent;
pub use crate::elements::parser::Event as ElementEvent;
pub use crate::elements::parser::EventsHandler as ElementEventsHandler;

verus! {

/// A parser that owns its event handler.
pub trait ElementParser<E: ElementEventsHandler>: Sized {
    /// `bytes` can be fed to this parser (it stops on them).
    spec fn feedable(&self, bytes: Seq<u8>) -> bool;

    fn initialize(cb: E) -> Self;

    fn feed_bytes(&mut self, bytes: &[u8])
        requires
            old(self).feedable(bytes@),
    ;
}

} // verus!
