//! A parser that owns its event handler.

pub mod debug;

use vstd::prelude::*;
use crate::elements::parser::{ParserState as Core, EventsHandler, dispatch, takes_all};
use crate::elements::parser::machine::{outcome, PState};
use super::super::ElementParser;

pub use crate::elements::parser::machine::ParserMode;

verus! {

/// A parser that hands the events it reads to the handler it owns.
pub struct ParserState<E> {
    cb: E,
    inner: Core,
}

impl<E> ParserState<E> {
    /// The parser proper.
    pub closed spec fn parser(&self) -> Core {
        self.inner
    }

    /// The handler.
    pub closed spec fn handler(&self) -> E {
        self.cb
    }

    /// The handler.
    pub fn borrow_handler(&self) -> (h: &E)
        ensures
            *h == self.handler(),
    {
        &self.cb
    }

    /// The handler, taken from the parser.
    pub fn into_handler(self) -> (h: E)
        ensures
            h == self.handler(),
    {
        self.cb
    }
}

impl<E: EventsHandler> ParserState<E> {
    /// Feeds bytes and hands the events to the handler, as `feed_bytes`
    /// does, when they can be fed; returns whether they were. When not,
    /// nothing changes.
    pub fn try_feed_bytes(&mut self, bytes: &[u8]) -> (r: bool)
        requires
            old(self).parser().wf(),
        ensures
            final(self).parser().wf(),
            r == old(self).parser().can_feed(bytes@),
            r ==> final(self).parser()@.state == outcome(old(self).parser()@.state, old(self).parser()@.pending + bytes@).0
                && final(self).parser()@.pending == outcome(old(self).parser()@.state, old(self).parser()@.pending + bytes@).1,
            !r ==> final(self).parser()@ == old(self).parser()@,
            r ==> takes_all(old(self).handler(), outcome(old(self).parser()@.state, old(self).parser()@.pending + bytes@).2, final(self).handler()),
            !r ==> final(self).handler() == old(self).handler(),
    {
        self.inner.try_feed_bytes(bytes, &mut self.cb)
    }
}

impl<E: EventsHandler> ElementParser<E> for ParserState<E> {
    open spec fn feedable(&self, bytes: Seq<u8>) -> bool {
        self.parser().wf() && self.parser().can_feed(bytes)
    }

    fn initialize(cb: E) -> (p: ParserState<E>)
        ensures
            p.parser().wf(),
            p.parser()@.state == crate::elements::parser::machine::initial_pstate(),
            p.parser()@.pending == Seq::<u8>::empty(),
            p.handler() == cb,
    {
        ParserState { cb, inner: Core::new() }
    }

    /// Feeds bytes and hands the events they complete to the handler.
    fn feed_bytes(&mut self, bytes: &[u8])
        ensures
            final(self).parser().wf(),
            final(self).parser()@.state == outcome(old(self).parser()@.state, old(self).parser()@.pending + bytes@).0,
            final(self).parser()@.pending == outcome(old(self).parser()@.state, old(self).parser()@.pending + bytes@).1,
            takes_all(old(self).handler(), outcome(old(self).parser()@.state, old(self).parser()@.pending + bytes@).2, final(self).handler()),
    {
        let events = self.inner.feed(bytes);
        dispatch(events, &mut self.cb);
    }
}

/// A parser that hands its events to `cb`.
pub fn new<E: EventsHandler>(cb: E) -> (p: ParserState<E>)
    ensures
        p.parser().wf(),
        p.parser()@.state == crate::elements::parser::machine::initial_pstate(),
        p.parser()@.pending == Seq::<u8>::empty(),
        p.handler() == cb,
{
    <ParserState<E> as ElementParser<E>>::initialize(cb)
}

} // verus!
