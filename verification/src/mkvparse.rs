//! A parser skeleton that greets its callbacks.

use vstd::prelude::*;

verus! {

/// Receives the debug messages of a `State`.
pub trait MkvCallbacks {
    fn debug(&self, message: String);
}

/// A parser that owns its callbacks.
pub trait MkvParser<Cb: MkvCallbacks>: Sized {
    fn initialize(cb: Cb) -> Self;

    fn feed_bytes(&mut self, bytes: Vec<u8>);
}

/// The skeleton: it holds its callbacks and an (unused) accumulator.
pub struct State<Cb> {
    cb: Cb,
    accumulator: Vec<u8>,
}

impl<Cb> State<Cb> {
    /// The callbacks.
    pub closed spec fn callbacks(&self) -> Cb {
        self.cb
    }

    /// The bytes held.
    pub closed spec fn held(&self) -> Seq<u8> {
        self.accumulator@
    }
}

impl<Cb: MkvCallbacks> MkvParser<Cb> for State<Cb> {
    fn initialize(cb: Cb) -> (s: State<Cb>)
        ensures
            s.callbacks() == cb,
            s.held() == Seq::<u8>::empty(),
    {
        State { accumulator: vec![], cb: cb }
    }

    /// Sends the message "Hello, world" to the callbacks; the bytes are
    /// not looked at.
    fn feed_bytes(&mut self, bytes: Vec<u8>)
        ensures
            final(self).callbacks() == old(self).callbacks(),
            final(self).held() == old(self).held(),
    {
        self.cb.debug("Hello, world".to_owned());
    }
}

} // verus!
