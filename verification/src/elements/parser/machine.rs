//! The parser as a state machine over bytes: one step, and runs of steps.

use vstd::prelude::*;
use crate::numbers::be_value;
use crate::elements::Type;
use crate::elements::database::{spec_class_to_type, spec_id_to_class};
use super::{Info, SpecContent};
use super::decode::spec_decode;
use super::parse_ebml_number::{Mode, Result, spec_ebml_result, spec_ebml_consumed};

verus! {

/// What the parser expects next.
#[derive(Debug, Eq, PartialEq, Clone, Copy, Structural)]
pub enum ParserMode {
    /// An element header (ID and size).
    Header,
    /// The payload of a non-master element: its length and type.
    Data(u64, Type),
    /// Garbage: scanning for the ID of a top-level element.
    Resync,
}

/// What the parser announces while reading.
pub enum SpecEvent {
    Begin(Info),
    Data(SpecContent),
    End(Info),
    Resync,
}

/// The state of the parser apart from the bytes it holds back.
pub struct PState {
    pub mode: ParserMode,
    /// Elements begun and not yet ended, outermost first.
    pub stack: Seq<Info>,
    /// Offset in the stream of the first byte not yet consumed.
    pub offset: u64,
}

/// The state that the parser starts in.
pub open spec fn initial_pstate() -> PState {
    PState { mode: ParserMode::Header, stack: Seq::empty(), offset: 0 }
}

/// States that the parser can be in.
pub open spec fn pstate_wf(s: PState) -> bool {
    &&& forall|i: int| 0 <= i < s.stack.len() ==> (#[trigger] s.stack[i]).offset <= s.offset
    &&& s.mode matches ParserMode::Data(_, t) ==> t != Type::Master
}

/// The IDs of the top-level elements at which resynchronisation resumes:
/// EBML, Segment, Info, Cluster, Tracks, Cues, Attachments, Chapters, Tags.
pub open spec fn is_sync_id(id: nat) -> bool {
    ||| id == 0x1A45DFA3
    ||| id == 0x18538067
    ||| id == 0x1549A966
    ||| id == 0x1F43B675
    ||| id == 0x1654AE6B
    ||| id == 0x1C53BB6B
    ||| id == 0x1941A469
    ||| id == 0x1043A770
    ||| id == 0x1254C367
}

/// The outcome of one attempt to read what the mode expects.
pub enum Attempt {
    /// More bytes are needed.
    NoMore,
    /// The input is malformed here; the state as the attempt left it.
    Fail(PState),
    /// Done: the new state, the number of bytes consumed, the events.
    Keep(PState, nat, Seq<SpecEvent>),
}

/// In resync mode: look for a top-level element ID, one byte at a time.
pub open spec fn attempt_resync(s: PState, buf: Seq<u8>) -> Attempt {
    if buf.len() < 4 {
        Attempt::NoMore
    } else if is_sync_id(be_value(buf.subrange(0, 4))) {
        Attempt::Keep(PState { mode: ParserMode::Header, ..s }, 0, Seq::empty())
    } else {
        Attempt::Keep(s, 1, Seq::empty())
    }
}

/// In header mode: read an element ID and size, and begin the element.
pub open spec fn attempt_header(s: PState, buf: Seq<u8>) -> Attempt {
    let r1 = spec_ebml_result(buf, Mode::Identifier);
    let c1 = spec_ebml_consumed(buf, Mode::Identifier);
    match r1 {
        Result::Error | Result::NaN => Attempt::Fail(s),
        Result::NotEnoughData => Attempt::NoMore,
        Result::Number(id) => {
            let rest = buf.subrange(c1 as int, buf.len() as int);
            let r2 = spec_ebml_result(rest, Mode::Unsigned);
            let hs = c1 + spec_ebml_consumed(rest, Mode::Unsigned);
            match r2 {
                Result::Error => Attempt::Fail(s),
                Result::NotEnoughData => Attempt::NoMore,
                _ => {
                    let size: Option<u64> = match r2 {
                        Result::Number(x) => Some(x),
                        _ => None,
                    };
                    let full: Option<u64> = match size {
                        Some(x) => Some((x + hs) as u64),
                        None => None,
                    };
                    let typ = spec_class_to_type(spec_id_to_class(id));
                    let mode = if typ == Type::Master {
                        ParserMode::Header
                    } else {
                        match size {
                            None => ParserMode::Resync,
                            Some(x) => ParserMode::Data(x, typ),
                        }
                    };
                    let info = Info { id, offset: s.offset, length_including_header: full };
                    Attempt::Keep(
                        PState { mode, stack: s.stack.push(info), offset: s.offset },
                        hs,
                        seq![SpecEvent::Begin(info)],
                    )
                },
            }
        },
    }
}

/// In data mode: decode the payload once all of it is there.
pub open spec fn attempt_data(s: PState, buf: Seq<u8>, len: u64, typ: Type) -> Attempt {
    if len <= buf.len() {
        let s1 = PState { mode: ParserMode::Header, ..s };
        match spec_decode(buf.subrange(0, len as int), typ) {
            None => Attempt::Fail(s1),
            Some(c) => Attempt::Keep(s1, len as nat, seq![SpecEvent::Data(c)]),
        }
    } else {
        Attempt::NoMore
    }
}

/// Reading an EBML number never consumes more than there is.
pub proof fn lemma_ebml_consumed_le(buf: Seq<u8>, mode: Mode)
    ensures
        spec_ebml_consumed(buf, mode) <= buf.len(),
{
}

/// An attempt consumes at most the bytes it is given.
pub proof fn lemma_attempt_consumed_le(s: PState, buf: Seq<u8>)
    ensures
        attempt(s, buf) matches Attempt::Keep(_, c, _) ==> c <= buf.len(),
{
    lemma_ebml_consumed_le(buf, Mode::Identifier);
    let c1 = spec_ebml_consumed(buf, Mode::Identifier);
    lemma_ebml_consumed_le(buf.subrange(c1 as int, buf.len() as int), Mode::Unsigned);
}

/// One attempt, by mode.
pub open spec fn attempt(s: PState, buf: Seq<u8>) -> Attempt {
    match s.mode {
        ParserMode::Resync => attempt_resync(s, buf),
        ParserMode::Header => attempt_header(s, buf),
        ParserMode::Data(len, typ) => attempt_data(s, buf, len, typ),
    }
}

/// An open element stays open while the stream has not passed its end.
pub open spec fn retained(info: Info, cur: u64) -> bool {
    match info.length_including_header {
        None => true,
        Some(l) => info.offset + l > cur,
    }
}

/// How many elements on top of the stack have ended at offset `cur`.
pub open spec fn expired_count(stack: Seq<Info>, cur: u64) -> nat
    decreases stack.len(),
{
    if stack.len() == 0 {
        0
    } else if retained(stack.last(), cur) {
        0
    } else {
        1 + expired_count(stack.drop_last(), cur)
    }
}

/// `End` events for the top `n` elements of the stack, innermost first.
pub open spec fn end_events(stack: Seq<Info>, n: nat) -> Seq<SpecEvent> {
    Seq::new(n, |i: int| SpecEvent::End(stack[stack.len() - 1 - i]))
}

/// Close the elements that have ended.
pub open spec fn close_expired(s: PState) -> (PState, Seq<SpecEvent>) {
    let n = expired_count(s.stack, s.offset);
    (
        PState { stack: s.stack.subrange(0, s.stack.len() - n), ..s },
        end_events(s.stack, n),
    )
}

/// One step of the parser on the bytes `buf` it holds: `None` when it
/// needs more bytes, else the new state, the bytes consumed and the events.
pub open spec fn step(s: PState, buf: Seq<u8>) -> Option<(PState, nat, Seq<SpecEvent>)> {
    match attempt(s, buf) {
        Attempt::NoMore => None,
        Attempt::Fail(s1) => {
            let (s2, ends) = close_expired(PState { mode: ParserMode::Resync, ..s1 });
            Some((s2, 0, seq![SpecEvent::Resync] + ends))
        },
        Attempt::Keep(s1, c, ev) => {
            let s2 = PState { offset: (s1.offset + c) as u64, ..s1 };
            let (s3, ev3) = match s2.mode {
                ParserMode::Data(len, t) => if len == 0 {
                    (
                        PState { mode: ParserMode::Header, ..s2 },
                        ev + seq![SpecEvent::Data(spec_decode(Seq::empty(), t).unwrap())],
                    )
                } else {
                    (s2, ev)
                },
                _ => (s2, ev),
            };
            let (s4, ends) = close_expired(s3);
            Some((s4, c, ev3 + ends))
        },
    }
}

/// Steps repeated until more bytes are needed, within `fuel` steps:
/// the final state, the bytes left over and the events, in order.
pub open spec fn run(s: PState, buf: Seq<u8>, fuel: nat) -> Option<(PState, Seq<u8>, Seq<SpecEvent>)>
    decreases fuel,
{
    if fuel == 0 {
        None
    } else {
        match step(s, buf) {
            None => Some((s, buf, Seq::empty())),
            Some((s2, c, ev)) => match run(s2, buf.subrange(c as int, buf.len() as int), (fuel - 1) as nat) {
                None => None,
                Some((s3, rest, ev2)) => Some((s3, rest, ev + ev2)),
            },
        }
    }
}

/// The parser stops on `buf`: it needs more bytes after finitely many steps.
/// (It does not when it resynchronises at a top-level ID whose size byte
/// is zero: it then keeps failing there, forever.)
pub open spec fn terminates(s: PState, buf: Seq<u8>) -> bool {
    exists|f: nat| (#[trigger] run(s, buf, f)) is Some
}

/// The final state, leftover bytes and events of a run that stops.
pub open spec fn outcome(s: PState, buf: Seq<u8>) -> (PState, Seq<u8>, Seq<SpecEvent>) {
    run(s, buf, choose|f: nat| (#[trigger] run(s, buf, f)) is Some).unwrap()
}

} // verus!
