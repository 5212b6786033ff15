//! Bytes to events: an incremental EBML parser.

pub mod parse_ebml_number;
pub mod decode;
pub mod machine;
pub mod laws;
pub mod stopping;
pub mod nesting;
pub mod debug;

use vstd::prelude::*;
use super::{FloatBits, Type};
use super::database::{id_to_class, class_to_type, class_name, spec_class_name, spec_id_to_class, Class};
use crate::text::{decimal, hex_upper, decimal_string, hex_string};
use self::parse_ebml_number::{parse_ebml_number, Mode, Result as EbmlResult, lemma_ebml_unsigned_bound};
use self::decode::{decode_content, spec_decode};
use self::machine::{
    ParserMode, PState, SpecEvent, Attempt, attempt, attempt_resync, attempt_header, attempt_data,
    pstate_wf, is_sync_id, lemma_attempt_consumed_le, retained, expired_count, end_events, close_expired, step, run,
    terminates, outcome, initial_pstate,
};
use self::stopping::{mode_rank, lemma_terminates_none, lemma_terminates_step, lemma_sync_fail_loops, lemma_step_rank};
use crate::numbers::{be_value, lemma_be_value_push};

verus! {

/// Where an element starts and how long it is (header included), if known.
#[derive(Debug, Eq, PartialEq, Clone, Copy, Structural)]
pub struct Info {
    pub id: u64,
    pub offset: u64,
    pub length_including_header: Option<u64>,
}

/// How an element is described in text: its class name (or its ID in
/// hexadecimal when the class is unknown), its offset and, when known,
/// its length, as in `DocType(offset:21, rawlen:11)`.
pub open spec fn spec_describe(i: Info) -> Seq<char> {
    let cl = spec_id_to_class(i.id);
    let name = if cl == Class::Unknown {
        "0x"@ + hex_upper(i.id as nat)
    } else {
        spec_class_name(cl)
    };
    let len = match i.length_including_header {
        None => Seq::empty(),
        Some(x) => ", rawlen:"@ + decimal(x as nat),
    };
    name + "(offset:"@ + decimal(i.offset as nat) + len + ")"@
}

impl Info {
    /// The element in text (see `spec_describe`).
    pub fn describe(&self) -> (s: String)
        ensures
            s@ == spec_describe(*self),
    {
        let cl = id_to_class(self.id);
        let mut s = match cl {
            Class::Unknown => {
                let mut h = String::from_str("0x");
                h.append(hex_string(self.id).as_str());
                h
            },
            _ => String::from_str(class_name(cl)),
        };
        s.append("(offset:");
        s.append(decimal_string(self.offset).as_str());
        match self.length_including_header {
            None => {},
            Some(x) => {
                s.append(", rawlen:");
                s.append(decimal_string(x).as_str());
            },
        }
        s.append(")");
        assert(s@ =~= spec_describe(*self));
        s
    }
}

/// Which part of a binary element's payload a chunk is.
/// Note: binary chunks are not related to lacing.
#[derive(Debug, Eq, PartialEq, Clone, Copy, Structural)]
pub enum BinaryChunkStatus {
    /// The chunk is the whole payload of the element.
    Full,
    First,
    Middle,
    Last,
}

/// The decoded payload of a non-master element.
#[derive(Debug, PartialEq, Clone)]
pub enum SimpleContent {
    Unsigned(u64),
    Signed(i64),
    Text(String),
    Binary(Vec<u8>, BinaryChunkStatus),
    Float(FloatBits),
    /// Nanoseconds since 2001-01-01T00:00:00 UTC.
    MatroskaDate(i64),
}

/// The mathematical value of a `SimpleContent`.
pub enum SpecContent {
    Unsigned(u64),
    Signed(i64),
    Text(Seq<char>),
    Binary(Seq<u8>, BinaryChunkStatus),
    Float(FloatBits),
    MatroskaDate(i64),
}

impl View for SimpleContent {
    type V = SpecContent;

    open spec fn view(&self) -> SpecContent {
        match self {
            SimpleContent::Unsigned(x) => SpecContent::Unsigned(*x),
            SimpleContent::Signed(x) => SpecContent::Signed(*x),
            SimpleContent::Text(s) => SpecContent::Text(s@),
            SimpleContent::Binary(b, st) => SpecContent::Binary(b@, *st),
            SimpleContent::Float(f) => SpecContent::Float(*f),
            SimpleContent::MatroskaDate(x) => SpecContent::MatroskaDate(*x),
        }
    }
}

/// What the parser announces while reading.
#[derive(Debug, PartialEq, Clone)]
pub enum Event {
    /// An element starts.
    Begin(Info),
    /// The payload of the innermost open element.
    Data(SimpleContent),
    /// An element ends.
    End(Info),
    /// The input was malformed; the parser skips to the next top-level element.
    Resync,
}

impl View for Event {
    type V = SpecEvent;

    open spec fn view(&self) -> SpecEvent {
        match self {
            Event::Begin(i) => SpecEvent::Begin(*i),
            Event::Data(c) => SpecEvent::Data(c@),
            Event::End(i) => SpecEvent::End(*i),
            Event::Resync => SpecEvent::Resync,
        }
    }
}

/// The mathematical values of a sequence of events.
pub open spec fn events_view(v: Seq<Event>) -> Seq<SpecEvent> {
    v.map_values(|e: Event| e@)
}

proof fn lemma_events_view_push(v: Seq<Event>, e: Event)
    ensures
        events_view(v.push(e)) == events_view(v).push(e@),
{
    assert(events_view(v.push(e)) =~= events_view(v).push(e@));
}

/// Receives the events of a parser.
pub trait EventsHandler {
    /// `next` is what this handler may become on taking the event `e`. A
    /// handler that says nothing of itself may become anything.
    open spec fn takes(&self, e: SpecEvent, next: &Self) -> bool {
        true
    }

    fn event(&mut self, e: Event)
        ensures
            old(self).takes(e@, final(self)),
    ;
}

/// The handlers `hs` are what a handler becomes, one after another, on
/// taking the events `evs` in order.
pub open spec fn takes_each<E: EventsHandler>(hs: Seq<E>, evs: Seq<SpecEvent>) -> bool {
    &&& hs.len() == evs.len() + 1
    &&& forall|i: int| 0 <= i < evs.len() ==> #[trigger] hs[i].takes(evs[i], &hs[i + 1])
}

/// `last` is what `h` may become on taking the events `evs`, in order.
pub open spec fn takes_all<E: EventsHandler>(h: E, evs: Seq<SpecEvent>, last: E) -> bool {
    exists|hs: Seq<E>| #[trigger] takes_each(hs, evs) && hs[0] == h && hs.last() == last
}

/// Taking events in two runs is taking them in one: what a handler may
/// become on `a` and then on `b` it may become on `a + b`, and back.
pub proof fn lemma_takes_all_concat<E: EventsHandler>(h: E, a: Seq<SpecEvent>, b: Seq<SpecEvent>, last: E)
    ensures
        takes_all(h, a + b, last) <==> exists|mid: E| #[trigger] takes_all(h, a, mid) && takes_all(mid, b, last),
{
    if takes_all(h, a + b, last) {
        let hs = choose|hs: Seq<E>| #[trigger] takes_each(hs, a + b) && hs[0] == h && hs.last() == last;
        let h1 = hs.subrange(0, (a.len() + 1) as int);
        let h2 = hs.subrange(a.len() as int, hs.len() as int);
        assert forall|i: int| 0 <= i < a.len() implies #[trigger] h1[i].takes(a[i], &h1[i + 1]) by {
            assert(hs[i].takes((a + b)[i], &hs[i + 1]));
        }
        assert forall|i: int| 0 <= i < b.len() implies #[trigger] h2[i].takes(b[i], &h2[i + 1]) by {
            assert(hs[a.len() + i].takes((a + b)[a.len() + i], &hs[a.len() + i + 1]));
        }
        assert(takes_each(h1, a) && h1[0] == h && h1.last() == hs[a.len() as int]);
        assert(takes_each(h2, b) && h2[0] == hs[a.len() as int] && h2.last() == last);
        assert(takes_all(h, a, hs[a.len() as int]) && takes_all(hs[a.len() as int], b, last));
    }
    if exists|mid: E| #[trigger] takes_all(h, a, mid) && takes_all(mid, b, last) {
        let mid = choose|mid: E| #[trigger] takes_all(h, a, mid) && takes_all(mid, b, last);
        let h1 = choose|hs: Seq<E>| #[trigger] takes_each(hs, a) && hs[0] == h && hs.last() == mid;
        let h2 = choose|hs: Seq<E>| #[trigger] takes_each(hs, b) && hs[0] == mid && hs.last() == last;
        let hs = h1 + h2.subrange(1, h2.len() as int);
        assert forall|i: int| 0 <= i < (a + b).len() implies #[trigger] hs[i].takes((a + b)[i], &hs[i + 1]) by {
            if i < a.len() {
                assert(h1[i].takes(a[i], &h1[i + 1]));
                if i + 1 == a.len() {
                    assert(hs[i + 1] == h2[0]);
                }
            } else {
                let k = i - a.len();
                assert(h2[k].takes(b[k], &h2[k + 1]));
                if k == 0 {
                    assert(hs[i] == h1.last());
                }
            }
        }
        assert(takes_each(hs, a + b) && hs[0] == h && hs.last() == last);
    }
}

/// Whether an open element is still open at offset `cur`.
fn is_retained(info: &Info, cur: u64) -> (r: bool)
    requires
        info.offset <= cur,
    ensures
        r == retained(*info, cur),
{
    match info.length_including_header {
        None => true,
        Some(l) => l > cur - info.offset,
    }
}

/// What a parser holds: its state and the bytes not yet consumed.
#[verifier::ext_equal]
pub struct ParserView {
    pub state: PState,
    pub pending: Seq<u8>,
}

/// An incremental EBML parser: bytes in, events out.
pub struct ParserState {
    accumulator: Vec<u8>,
    opened_elements_stack: Vec<Info>,
    mode: ParserMode,
    current_offset: u64,
}

/// The outcome of one attempt, as the parser's loop sees it.
enum ResultOfTryParseSomething {
    /// Done; this many bytes consumed.
    KeepGoing(usize),
    NoMoreData,
    Error,
}

/// The attempt `a` from state `s0` is what the code did: result `r`, new
/// state `s1`, new events `ev`.
spec fn realizes(
    a: Attempt,
    s0: PState,
    r: ResultOfTryParseSomething,
    s1: PState,
    ev0: Seq<SpecEvent>,
    ev1: Seq<SpecEvent>,
) -> bool {
    match a {
        Attempt::NoMore => r is NoMoreData && s1 == s0 && ev1 == ev0,
        Attempt::Fail(s) => r is Error && s1 == s && ev1 == ev0,
        Attempt::Keep(s, c, e) => r == ResultOfTryParseSomething::KeepGoing(c as usize) && s1 == s && ev1 == ev0 + e,
    }
}

impl View for ParserState {
    type V = ParserView;

    closed spec fn view(&self) -> ParserView {
        ParserView {
            state: PState {
                mode: self.mode,
                stack: self.opened_elements_stack@,
                offset: self.current_offset,
            },
            pending: self.accumulator@,
        }
    }
}

impl ParserState {
    /// The parser is in a state that it can reach.
    pub open spec fn wf(&self) -> bool {
        pstate_wf(self@.state)
    }

    /// `bytes` can be fed: the offsets stay within `u64` and the parser stops.
    pub open spec fn can_feed(&self, bytes: Seq<u8>) -> bool {
        &&& self@.state.offset + self@.pending.len() + bytes.len() <= u64::MAX
        &&& terminates(self@.state, self@.pending + bytes)
    }

    /// A parser at offset 0, expecting a header.
    pub fn new() -> (p: ParserState)
        ensures
            p.wf(),
            p@.state == initial_pstate(),
            p@.pending == Seq::<u8>::empty(),
    {
        ParserState {
            accumulator: Vec::new(),
            opened_elements_stack: Vec::new(),
            mode: ParserMode::Header,
            current_offset: 0,
        }
    }

    fn try_resync(&mut self, buf: &[u8]) -> (r: ResultOfTryParseSomething)
        requires
            old(self).wf(),
        ensures
            final(self)@.pending == old(self)@.pending,
            realizes(attempt_resync(old(self)@.state, buf@), old(self)@.state, r, final(self)@.state, Seq::empty(), Seq::empty()),
            r matches ResultOfTryParseSomething::KeepGoing(c) ==> c <= buf@.len(),
    {
        if buf.len() < 4 {
            return ResultOfTryParseSomething::NoMoreData;
        }
        let (fourbytes, _) = buf.split_at(4);
        let id: u32 = (fourbytes[0] as u32) * 0x1000000 + (fourbytes[1] as u32) * 0x10000
            + (fourbytes[2] as u32) * 0x100 + (fourbytes[3] as u32);
        proof {
            let f = buf@.subrange(0, 4);
            assert(f =~= fourbytes@);
            let e = Seq::<u8>::empty();
            assert(be_value(e) == 0);
            lemma_be_value_push(e, f[0]);
            lemma_be_value_push(e.push(f[0]), f[1]);
            lemma_be_value_push(e.push(f[0]).push(f[1]), f[2]);
            lemma_be_value_push(e.push(f[0]).push(f[1]).push(f[2]), f[3]);
            assert(f =~= e.push(f[0]).push(f[1]).push(f[2]).push(f[3]));
            assert(be_value(f) == id);
        }
        if id == 0x1A45DFA3 || id == 0x18538067 || id == 0x1549A966 || id == 0x1F43B675
            || id == 0x1654AE6B || id == 0x1C53BB6B || id == 0x1941A469 || id == 0x1043A770
            || id == 0x1254C367 {
            self.mode = ParserMode::Header;
            ResultOfTryParseSomething::KeepGoing(0)
        } else {
            ResultOfTryParseSomething::KeepGoing(1)
        }
    }

    fn try_parse_element_data(&mut self, buf: &[u8], len: u64, typ: Type, events: &mut Vec<Event>) -> (r: ResultOfTryParseSomething)
        requires
            old(self).wf(),
            old(self)@.state.mode == ParserMode::Data(len, typ),
        ensures
            final(self)@.pending == old(self)@.pending,
            final(self).wf(),
            realizes(
                attempt_data(old(self)@.state, buf@, len, typ),
                old(self)@.state,
                r,
                final(self)@.state,
                events_view(old(events)@),
                events_view(final(events)@),
            ),
            r matches ResultOfTryParseSomething::KeepGoing(c) ==> c <= buf@.len(),
    {
        let ghost ev0 = events@;
        if len <= buf.len() as u64 {
            self.mode = ParserMode::Header;
            let (l, _) = buf.split_at(len as usize);
            assert(l@ == buf@.subrange(0, len as int));
            match decode_content(l, typ) {
                None => {
                    
                    ResultOfTryParseSomething::Error
                },
                Some(c) => {
                    proof {
                        lemma_events_view_push(events@, Event::Data(c));
                    }
                    events.push(Event::Data(c));
                    assert(events_view(ev0).push(SpecEvent::Data(c@)) =~= events_view(ev0) + seq![SpecEvent::Data(c@)]);
                    ResultOfTryParseSomething::KeepGoing(len as usize)
                },
            }
        } else {
            ResultOfTryParseSomething::NoMoreData
        }
    }

    fn try_parse_element_header(&mut self, buf: &[u8], events: &mut Vec<Event>) -> (r: ResultOfTryParseSomething)
        requires
            old(self).wf(),
            old(self)@.state.mode == ParserMode::Header,
        ensures
            final(self)@.pending == old(self)@.pending,
            final(self).wf(),
            realizes(
                attempt_header(old(self)@.state, buf@),
                old(self)@.state,
                r,
                final(self)@.state,
                events_view(old(events)@),
                events_view(final(events)@),
            ),
            r matches ResultOfTryParseSomething::KeepGoing(c) ==> c <= buf@.len(),
    {
        let ghost ev0 = events@;
        let (r1, restbuf) = parse_ebml_number(buf, Mode::Identifier);
        let element_id = match r1 {
            EbmlResult::Error => return ResultOfTryParseSomething::Error,
            EbmlResult::NaN => return ResultOfTryParseSomething::Error,
            EbmlResult::NotEnoughData => return ResultOfTryParseSomething::NoMoreData,
            EbmlResult::Number(x) => x,
        };
        let (r2, restbuf2) = parse_ebml_number(restbuf, Mode::Unsigned);
        let element_header_size = buf.len() - restbuf2.len();
        let element_size: Option<u64> = match r2 {
            EbmlResult::Error => return ResultOfTryParseSomething::Error,
            EbmlResult::NaN => None,
            EbmlResult::NotEnoughData => return ResultOfTryParseSomething::NoMoreData,
            EbmlResult::Number(x) => Some(x),
        };
        proof {
            if r2 is Number {
                lemma_ebml_unsigned_bound(restbuf@);
            }
        }
        let full_element_size: Option<u64> = match element_size {
            None => None,
            Some(x) => Some(x + element_header_size as u64),
        };
        let cl = id_to_class(element_id);
        let typ = class_to_type(cl);
        self.mode = match typ {
            Type::Master => ParserMode::Header,
            t => match element_size {
                None => ParserMode::Resync,
                Some(x) => ParserMode::Data(x, t),
            },
        };
        let el = Info { id: element_id, length_including_header: full_element_size, offset: self.current_offset };
        proof {
            lemma_events_view_push(events@, Event::Begin(el));
        }
        events.push(Event::Begin(el));
        self.opened_elements_stack.push(el);
        assert(events_view(ev0).push(SpecEvent::Begin(el)) =~= events_view(ev0) + seq![SpecEvent::Begin(el)]);
        ResultOfTryParseSomething::KeepGoing(element_header_size)
    }

    fn close_expired_elements(&mut self, events: &mut Vec<Event>)
        requires
            old(self).wf(),
        ensures
            final(self).wf(),
            final(self)@.pending == old(self)@.pending,
            final(self)@.state == close_expired(old(self)@.state).0,
            events_view(final(events)@) == events_view(old(events)@) + close_expired(old(self)@.state).1,
    {
        let ghost s0 = self@.state;
        let ghost ev0 = events@;
        let len = self.opened_elements_stack.len();
        let cur = self.current_offset;
        let mut number_of_elements_to_remove: usize = 0;
        assert(s0.stack.subrange(0, len as int) =~= s0.stack);
        while number_of_elements_to_remove < len
            && !is_retained(&self.opened_elements_stack[len - 1 - number_of_elements_to_remove], cur)
            invariant
                len == self.opened_elements_stack@.len(),
                self@.state == s0,
                self.wf(),
                cur == s0.offset,
                number_of_elements_to_remove <= len,
                expired_count(s0.stack, cur) == number_of_elements_to_remove
                    + expired_count(s0.stack.subrange(0, len - number_of_elements_to_remove), cur),
            decreases len - number_of_elements_to_remove,
        {
            let ghost sub = s0.stack.subrange(0, len - number_of_elements_to_remove);
            assert(sub.drop_last() =~= s0.stack.subrange(0, len - number_of_elements_to_remove - 1));
            number_of_elements_to_remove += 1;
        }
        proof {
            let sub = s0.stack.subrange(0, len - number_of_elements_to_remove);
            if number_of_elements_to_remove < len {
                assert(sub.last() == s0.stack[len - 1 - number_of_elements_to_remove]);
            }
            assert(expired_count(s0.stack, cur) == number_of_elements_to_remove);
        }
        let mut j: usize = 0;
        while j < number_of_elements_to_remove
            invariant
                len == self.opened_elements_stack@.len(),
                self@.state == s0,
                number_of_elements_to_remove <= len,
                j <= number_of_elements_to_remove,
                events_view(events@) == events_view(ev0) + end_events(s0.stack, j as nat),
            decreases number_of_elements_to_remove - j,
        {
            let i = self.opened_elements_stack[len - 1 - j];
            proof {
                lemma_events_view_push(events@, Event::End(i));
            }
            events.push(Event::End(i));
            assert(end_events(s0.stack, (j + 1) as nat) =~= end_events(s0.stack, j as nat).push(SpecEvent::End(i)));
            j += 1;
        }
        self.opened_elements_stack.truncate(len - number_of_elements_to_remove);
        assert(self.opened_elements_stack@ =~= s0.stack.subrange(0, len - number_of_elements_to_remove));
    }


    /// One step: read what the mode expects, recover from malformed input,
    /// advance the offset and close the elements that have ended.
    /// `None` when more bytes are needed (nothing changes then); else the
    /// number of bytes of `buf` consumed.
    #[verifier::spinoff_prover]
    fn try_parse_something(&mut self, buf: &[u8], events: &mut Vec<Event>) -> (r: Option<usize>)
        requires
            old(self).wf(),
            old(self)@.state.offset + buf@.len() <= u64::MAX,
        ensures
            final(self).wf(),
            final(self)@.pending == old(self)@.pending,
            match step(old(self)@.state, buf@) {
                None => r is None && final(self)@.state == old(self)@.state
                    && events_view(final(events)@) == events_view(old(events)@),
                Some((s2, c, ev)) => r == Some(c as usize) && c <= buf@.len() && final(self)@.state == s2
                    && events_view(final(events)@) == events_view(old(events)@) + ev,
            },
    {
        let ghost cur = self@.state;
        let ghost ev_before = events@;
        let r = match self.mode {
            ParserMode::Resync => self.try_resync(buf),
            ParserMode::Header => self.try_parse_element_header(buf, events),
            ParserMode::Data(x, t) => self.try_parse_element_data(buf, x, t, events),
        };
        let ghost a = attempt(cur, buf@);
        proof {
            lemma_attempt_consumed_le(cur, buf@);
        }
        let ghost s_att = self@.state;
        let ghost ev_att = events@;
        assert(realizes(a, cur, r, s_att, events_view(ev_before), events_view(ev_att)));
        let consumed: usize = match r {
            ResultOfTryParseSomething::NoMoreData => {
                return None;
            },
            ResultOfTryParseSomething::Error => {
                self.mode = ParserMode::Resync;
                proof {
                    lemma_events_view_push(events@, Event::Resync);
                }
                events.push(Event::Resync);
                0
            },
            ResultOfTryParseSomething::KeepGoing(rest) => rest,
        };
        self.current_offset = self.current_offset + consumed as u64;
        let (_, newbuf) = buf.split_at(consumed);
        let ghost s_off = self@.state;
        let ghost ev_off = events@;
        if let ResultOfTryParseSomething::KeepGoing(_) = r {
            if let ParserMode::Data(0, t) = self.mode {
                assert(newbuf@.subrange(0, 0) =~= Seq::<u8>::empty());
                let _ = self.try_parse_element_data(newbuf, 0, t, events);
            }
        }
        let ghost s_z = self@.state;
        let ghost ev_z = events@;
        self.close_expired_elements(events);
        proof {
            let e0 = events_view(ev_before);
            match a {
                Attempt::Fail(s1) => {
                    assert(s_off == PState { mode: ParserMode::Resync, ..s1 });
                    assert(events_view(ev_off) == e0.push(SpecEvent::Resync));
                    assert(s_z == s_off);
                    assert(e0.push(SpecEvent::Resync) + close_expired(s_off).1 =~= e0 + (seq![SpecEvent::Resync] + close_expired(s_off).1));
                },
                Attempt::Keep(s1, c, e) => {
                    assert(c <= buf@.len());
                    assert(consumed as nat == c);
                    assert(s_off.offset == s1.offset + c);
                    assert(s_off == PState { offset: (s1.offset + c) as u64, ..s1 });
                    assert(events_view(ev_off) == e0 + e);
                    match s_off.mode {
                        ParserMode::Data(len, t) => {
                            if len == 0 {
                                assert(s_z == PState { mode: ParserMode::Header, ..s_off });
                                assert(events_view(ev_z) == e0 + e + seq![SpecEvent::Data(spec_decode(Seq::empty(), t).unwrap())]);
                                assert(events_view(ev_z) + close_expired(s_z).1 =~= e0 + (e + seq![SpecEvent::Data(spec_decode(Seq::empty(), t).unwrap())] + close_expired(s_z).1));
                            } else {
                                assert(s_z == s_off);
                                assert(events_view(ev_z) + close_expired(s_z).1 =~= e0 + (e + close_expired(s_z).1));
                            }
                        },
                        _ => {
                            assert(s_z == s_off);
                            assert(events_view(ev_z) + close_expired(s_z).1 =~= e0 + (e + close_expired(s_z).1));
                        },
                    }
                },
                Attempt::NoMore => {},
            }
        }
        Some(consumed)
    }

    /// Feeds bytes to the parser: it consumes what it can of the bytes held
    /// back before and these, and returns the events that this produces.
    pub fn feed(&mut self, bytes: &[u8]) -> (events: Vec<Event>)
        requires
            old(self).wf(),
            old(self).can_feed(bytes@),
        ensures
            final(self).wf(),
            final(self)@.state == outcome(old(self)@.state, old(self)@.pending + bytes@).0,
            final(self)@.pending == outcome(old(self)@.state, old(self)@.pending + bytes@).1,
            events_view(events@) == outcome(old(self)@.state, old(self)@.pending + bytes@).2,
    {
        let ghost s0 = self@.state;
        let ghost buf0 = self@.pending + bytes@;
        let ghost f = choose|f: nat| (#[trigger] run(s0, buf0, f)) is Some;
        let mut data = vstd::slice::slice_to_vec(self.accumulator.as_slice());
        data.extend_from_slice(bytes);
        assert(data@ =~= buf0);
        let mut events: Vec<Event> = Vec::new();
        let mut pos: usize = 0;
        let ghost mut fuel: nat = f;
        assert(data@.subrange(0, data@.len() as int) =~= buf0);
        assert(events_view(events@) =~= Seq::<SpecEvent>::empty());
        loop
            invariant
                self.wf(),
                pos <= data.len(),
                data@ == buf0,
                self@.state.offset + (data@.len() - pos) <= u64::MAX,
                run(self@.state, data@.subrange(pos as int, data@.len() as int), fuel) is Some,
                outcome(s0, buf0) == ({
                    let r = run(self@.state, data@.subrange(pos as int, data@.len() as int), fuel).unwrap();
                    (r.0, r.1, events_view(events@) + r.2)
                }),
            ensures
                self.wf(),
                pos <= data.len(),
                data@ == buf0,
                outcome(s0, buf0) == (self@.state, data@.subrange(pos as int, data@.len() as int), events_view(events@)),
            decreases fuel,
        {
            let ghost cur = self@.state;
            let (_, buf) = data.as_slice().split_at(pos);
            assert(buf@ == data@.subrange(pos as int, data@.len() as int));
            let consumed = match self.try_parse_something(buf, &mut events) {
                None => {
                    assert(step(cur, buf@) is None);
                    assert(run(cur, buf@, fuel) == Some((cur, buf@, Seq::<SpecEvent>::empty())));
                    assert(events_view(events@) + Seq::<SpecEvent>::empty() =~= events_view(events@));
                    break;
                },
                Some(c) => c,
            };
            proof {
                let (s2, c, ev) = step(cur, buf@).unwrap();
                assert(data@.subrange(pos + consumed, data@.len() as int) =~= buf@.subrange(c as int, buf@.len() as int));
                assert(events_view(events@) + run(s2, buf@.subrange(c as int, buf@.len() as int), (fuel - 1) as nat).unwrap().2
                    =~= events_view(events@).subrange(0, events@.len() - ev.len()) + (ev + run(s2, buf@.subrange(c as int, buf@.len() as int), (fuel - 1) as nat).unwrap().2));
                fuel = (fuel - 1) as nat;
            }
            pos = pos + consumed;
        }
        let (_, rest) = data.as_slice().split_at(pos);
        self.accumulator = vstd::slice::slice_to_vec(rest);
        events
    }

    /// Whether the parser, run on the bytes it holds and then `bytes`,
    /// stops (comes to need more bytes). It runs a copy of itself.
    pub fn stops(&self, bytes: &[u8]) -> (r: bool)
        requires
            self.wf(),
            self@.state.offset + self@.pending.len() + bytes@.len() <= u64::MAX,
        ensures
            r == terminates(self@.state, self@.pending + bytes@),
    {
        let mut stack: Vec<Info> = Vec::new();
        let mut k: usize = 0;
        while k < self.opened_elements_stack.len()
            invariant
                k <= self.opened_elements_stack@.len(),
                stack@ == self.opened_elements_stack@.subrange(0, k as int),
            decreases self.opened_elements_stack@.len() - k,
        {
            stack.push(self.opened_elements_stack[k]);
            k += 1;
            assert(stack@ =~= self.opened_elements_stack@.subrange(0, k as int));
        }
        assert(stack@ =~= self.opened_elements_stack@);
        let mut sim = ParserState {
            accumulator: Vec::new(),
            opened_elements_stack: stack,
            mode: self.mode,
            current_offset: self.current_offset,
        };
        let ghost s0 = self@.state;
        let ghost buf0 = self@.pending + bytes@;
        assert(sim@.state == s0);
        let mut data = vstd::slice::slice_to_vec(self.accumulator.as_slice());
        data.extend_from_slice(bytes);
        assert(data@ =~= buf0);
        assert(data@.subrange(0, data@.len() as int) =~= buf0);
        let mut events: Vec<Event> = Vec::new();
        let mut pos: usize = 0;
        loop
            invariant
                sim.wf(),
                pos <= data.len(),
                data@ == buf0,
                s0 == self@.state,
                buf0 == self@.pending + bytes@,
                sim@.state.offset + (data@.len() - pos) <= u64::MAX,
                terminates(s0, buf0) == terminates(sim@.state, data@.subrange(pos as int, data@.len() as int)),
            decreases data@.len() - pos, mode_rank(sim@.state.mode),
        {
            let ghost cur = sim@.state;
            let (_, buf) = data.as_slice().split_at(pos);
            assert(buf@ == data@.subrange(pos as int, data@.len() as int));
            let was_resync = match sim.mode {
                ParserMode::Resync => true,
                _ => false,
            };
            let c = match sim.try_parse_something(buf, &mut events) {
                None => {
                    proof {
                        lemma_terminates_none(cur, buf@);
                    }
                    return true;
                },
                Some(c) => c,
            };
            proof {
                lemma_terminates_step(cur, buf@);
                assert(data@.subrange(pos + c, data@.len() as int) =~= buf@.subrange(c as int, buf@.len() as int));
            }
            if was_resync && c == 0 {
                proof {
                    lemma_step_rank(cur, buf@);
                }
                let ghost cur2 = sim@.state;
                assert(buf@.subrange(0, buf@.len() as int) =~= buf@);
                let d = match sim.try_parse_something(buf, &mut events) {
                    None => {
                        proof {
                            lemma_terminates_none(cur2, buf@);
                        }
                        return true;
                    },
                    Some(d) => d,
                };
                if d == 0 {
                    proof {
                        lemma_sync_fail_loops(cur, buf@);
                    }
                    return false;
                }
                proof {
                    lemma_terminates_step(cur2, buf@);
                    assert(data@.subrange(pos + d, data@.len() as int) =~= buf@.subrange(d as int, buf@.len() as int));
                }
                pos = pos + d;
            } else {
                proof {
                    if c == 0 {
                        lemma_step_rank(cur, buf@);
                    }
                }
                pos = pos + c;
            }
        }
    }

    /// Whether `bytes` can be fed (see `can_feed`): the offsets fit in
    /// `u64` and the parser stops.
    pub fn check_feed(&self, bytes: &[u8]) -> (r: bool)
        requires
            self.wf(),
        ensures
            r == self.can_feed(bytes@),
    {
        let held = self.accumulator.len() as u64;
        let more = bytes.len() as u64;
        let fits = match self.current_offset.checked_add(held) {
            Some(x) => x.checked_add(more).is_some(),
            None => false,
        };
        fits && self.stops(bytes)
    }

    /// Feeds bytes and hands the events to `cb`, as `Parser::feed_bytes`
    /// does, when they can be fed (see `can_feed`); returns whether they
    /// were. When not, nothing changes and `cb` gets no event.
    pub fn try_feed_bytes<E: EventsHandler>(&mut self, bytes: &[u8], cb: &mut E) -> (r: bool)
        requires
            old(self).wf(),
        ensures
            final(self).wf(),
            r == old(self).can_feed(bytes@),
            r ==> final(self)@.state == outcome(old(self)@.state, old(self)@.pending + bytes@).0
                && final(self)@.pending == outcome(old(self)@.state, old(self)@.pending + bytes@).1,
            !r ==> final(self)@ == old(self)@,
            r ==> takes_all(*old(cb), outcome(old(self)@.state, old(self)@.pending + bytes@).2, *final(cb)),
            !r ==> *final(cb) == *old(cb),
    {
        if !self.check_feed(bytes) {
            return false;
        }
        let events = self.feed(bytes);
        dispatch(events, cb);
        true
    }

}

/// Hands events to a handler, in order.
pub fn dispatch<E: EventsHandler>(events: Vec<Event>, cb: &mut E)
    ensures
        takes_all(*old(cb), events_view(events@), *final(cb)),
{
    let ghost all = events@;
    let ghost mut hs: Seq<E> = seq![*cb];
    for e in it: events
        invariant
            it.seq() == all,
            takes_each(hs, events_view(all.take(it.index() as int))),
            hs.last() == *cb,
            hs[0] == *old(cb),
    {
        let ghost before = *cb;
        let ghost i = it.index() as int;
        let ghost evs0 = events_view(all.take(i));
        proof {
            assert(all.take(i + 1) =~= all.take(i).push(e));
            lemma_events_view_push(all.take(i), e);
        }
        cb.event(e);
        proof {
            let evs = events_view(all.take(i + 1));
            let hs0 = hs;
            hs = hs.push(*cb);
            assert(evs == evs0.push(e@));
            assert forall|k: int| 0 <= k < evs.len() implies #[trigger] hs[k].takes(evs[k], &hs[k + 1]) by {
                if k < evs0.len() {
                    assert(hs[k] == hs0[k]);
                    assert(hs[k + 1] == hs0[k + 1]);
                    assert(evs[k] == evs0[k]);
                } else {
                    assert(hs[k] == before);
                }
            }
        }
    }
    assert(all.take(all.len() as int) =~= all);
    assert(takes_each(hs, events_view(all)) && hs[0] == *old(cb) && hs.last() == *cb);
}

/// A parser that reads bytes as they come and reports events to a handler.
pub trait Parser: Sized {
    /// `bytes` can be fed to this parser (it stops on them).
    spec fn feedable(&self, bytes: Seq<u8>) -> bool;

    fn new() -> Self;

    fn feed_bytes<E: EventsHandler>(&mut self, bytes: &[u8], cb: &mut E)
        requires
            old(self).feedable(bytes@),
    ;

    fn force_resync(&mut self);
}

impl Parser for ParserState {
    open spec fn feedable(&self, bytes: Seq<u8>) -> bool {
        self.wf() && self.can_feed(bytes)
    }

    fn new() -> (p: ParserState)
        ensures
            p.wf(),
            p@.state == initial_pstate(),
            p@.pending == Seq::<u8>::empty(),
    {
        ParserState::new()
    }

    /// Feeds bytes and hands the events they complete to `cb`, in order.
    fn feed_bytes<E: EventsHandler>(&mut self, bytes: &[u8], cb: &mut E)
        ensures
            final(self).wf(),
            final(self)@.state == outcome(old(self)@.state, old(self)@.pending + bytes@).0,
            final(self)@.pending == outcome(old(self)@.state, old(self)@.pending + bytes@).1,
            takes_all(*old(cb), outcome(old(self)@.state, old(self)@.pending + bytes@).2, *final(cb)),
    {
        let events = self.feed(bytes);
        dispatch(events, cb);
    }

    fn force_resync(&mut self)
        ensures
            old(self).wf() ==> final(self).wf(),
            final(self)@ == (ParserView {
                state: PState { mode: ParserMode::Resync, ..old(self)@.state },
                pending: old(self)@.pending,
            }),
    {
        self.mode = ParserMode::Resync;
    }
}

/// A new parser.
pub fn new() -> (p: ParserState)
    ensures
        p.wf(),
        p@.state == initial_pstate(),
        p@.pending == Seq::<u8>::empty(),
{
    ParserState::new()
}

} // verus!
