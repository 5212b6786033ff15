//! How the events of the parser nest: every `End` closes the element begun
//! last and still open, naming it; an element begins at the offset of its
//! first byte; it ends once the stream has passed its last byte.

use vstd::prelude::*;
use super::Info;
use super::machine::{
    PState, SpecEvent, Attempt, ParserMode, attempt, step, run, terminates, outcome, close_expired,
    expired_count, end_events, retained,
};

verus! {

/// The elements open after the events `evs`, from the open elements
/// `stack`: a `Begin` opens its element; an `End` closes the element opened
/// last, which it must name (`None` when it names another, or none is open).
pub open spec fn nest(stack: Seq<Info>, evs: Seq<SpecEvent>) -> Option<Seq<Info>>
    decreases evs.len(),
{
    if evs.len() == 0 {
        Some(stack)
    } else {
        let rest = evs.subrange(1, evs.len() as int);
        match evs[0] {
            SpecEvent::Begin(i) => nest(stack.push(i), rest),
            SpecEvent::End(i) => if stack.len() > 0 && stack.last() == i {
                nest(stack.drop_last(), rest)
            } else {
                None
            },
            _ => nest(stack, rest),
        }
    }
}

/// Nesting runs on: the events `a + b` nest from `stack` as `a` does and
/// then `b` from where `a` left off.
proof fn lemma_nest_concat(stack: Seq<Info>, a: Seq<SpecEvent>, b: Seq<SpecEvent>)
    ensures
        nest(stack, a + b) == match nest(stack, a) {
            Some(st) => nest(st, b),
            None => None,
        },
    decreases a.len(),
{
    if a.len() == 0 {
        assert(a + b =~= b);
    } else {
        assert((a + b)[0] == a[0]);
        assert((a + b).subrange(1, (a + b).len() as int) =~= a.subrange(1, a.len() as int) + b);
        match a[0] {
            SpecEvent::Begin(i) => lemma_nest_concat(stack.push(i), a.subrange(1, a.len() as int), b),
            SpecEvent::End(i) => if stack.len() > 0 && stack.last() == i {
                lemma_nest_concat(stack.drop_last(), a.subrange(1, a.len() as int), b);
            },
            _ => lemma_nest_concat(stack, a.subrange(1, a.len() as int), b),
        }
    }
}

/// One event that is not an `End`: a `Begin` opens its element, any other
/// leaves the open elements as they are.
proof fn lemma_nest_one(stack: Seq<Info>, x: SpecEvent)
    requires
        !(x is End),
    ensures
        nest(stack, seq![x]) == Some(if x is Begin { stack.push(x->Begin_0) } else { stack }),
{
    let st = if x is Begin { stack.push(x->Begin_0) } else { stack };
    assert(seq![x].subrange(1, 1) =~= Seq::<SpecEvent>::empty());
    assert(nest(st, Seq::<SpecEvent>::empty()) == Some(st));
}

/// The `End` events of the top `n` open elements, innermost first, close
/// them.
proof fn lemma_nest_ends(stack: Seq<Info>, n: nat)
    requires
        n <= stack.len(),
    ensures
        nest(stack, end_events(stack, n)) == Some(stack.subrange(0, stack.len() - n)),
    decreases n,
{
    let evs = end_events(stack, n);
    if n == 0 {
        assert(evs =~= Seq::<SpecEvent>::empty());
        assert(stack.subrange(0, stack.len() as int) =~= stack);
    } else {
        let st = stack.drop_last();
        assert(evs[0] == SpecEvent::End(stack.last()));
        assert(evs.subrange(1, evs.len() as int) =~= end_events(st, (n - 1) as nat));
        lemma_nest_ends(st, (n - 1) as nat);
        assert(st.subrange(0, st.len() - (n - 1)) =~= stack.subrange(0, stack.len() - n));
    }
}

/// No more elements close than are open, and those that close have ended.
proof fn lemma_expired(stack: Seq<Info>, p: u64)
    ensures
        expired_count(stack, p) <= stack.len(),
        forall|k: int| 0 <= k < expired_count(stack, p) ==> !retained(#[trigger] stack[stack.len() - 1 - k], p),
    decreases stack.len(),
{
    if stack.len() > 0 && !retained(stack.last(), p) {
        let st = stack.drop_last();
        lemma_expired(st, p);
        assert forall|k: int| 0 <= k < expired_count(stack, p) implies !retained(#[trigger] stack[stack.len() - 1 - k], p) by {
            if k > 0 {
                assert(stack[stack.len() - 1 - k] == st[st.len() - 1 - (k - 1)]);
            }
        }
    }
}

/// What one attempt does to the open elements: at most one element begins,
/// at the current offset; the offset stays.
proof fn lemma_attempt_shape(s: PState, buf: Seq<u8>)
    ensures
        attempt(s, buf) matches Attempt::Fail(s1) ==> s1.stack == s.stack && s1.offset == s.offset,
        attempt(s, buf) matches Attempt::Keep(s1, c, ev) ==> s1.offset == s.offset && (
            (ev.len() == 0 && s1.stack == s.stack)
            || (ev.len() == 1 && ev[0] is Data && s1.stack == s.stack)
            || (ev.len() == 1 && ev[0] is Begin && ev[0]->Begin_0.offset == s.offset
                && s1.stack == s.stack.push(ev[0]->Begin_0))
        ),
{
}

/// One step of the parser: its events nest from the open elements before
/// it to those after it; an element that begins, begins at the offset
/// where the step starts; an element that ends has been passed by the
/// offset where the step ends, which is where it started plus the bytes
/// it consumed.
pub proof fn lemma_step_nests(s: PState, buf: Seq<u8>)
    requires
        step(s, buf) is Some,
    ensures
        ({
            let (s2, c, ev) = step(s, buf).unwrap();
            &&& nest(s.stack, ev) == Some(s2.stack)
            &&& s2.offset == (s.offset + c) as u64
            &&& forall|j: int| 0 <= j < ev.len() ==> (#[trigger] ev[j] matches SpecEvent::Begin(i) ==> i.offset == s.offset)
            &&& forall|j: int| 0 <= j < ev.len() ==> (#[trigger] ev[j] matches SpecEvent::End(i) ==> !retained(i, s2.offset))
        }),
{
    lemma_attempt_shape(s, buf);
    let (s2, c, ev) = step(s, buf).unwrap();
    match attempt(s, buf) {
        Attempt::NoMore => {},
        Attempt::Fail(s1) => {
            let sr = PState { mode: ParserMode::Resync, ..s1 };
            let n = expired_count(sr.stack, sr.offset);
            lemma_expired(sr.stack, sr.offset);
            lemma_nest_ends(sr.stack, n);
            let ends = end_events(sr.stack, n);
            assert(ev == seq![SpecEvent::Resync] + ends);
            lemma_nest_concat(s.stack, seq![SpecEvent::Resync], ends);
            assert(seq![SpecEvent::Resync].subrange(1, 1) =~= Seq::<SpecEvent>::empty());
            assert forall|j: int| 0 <= j < ev.len() implies (#[trigger] ev[j] matches SpecEvent::End(i) ==> !retained(i, s2.offset)) by {
                if j > 0 {
                    assert(ev[j] == ends[j - 1]);
                }
            }
            assert forall|j: int| 0 <= j < ev.len() implies (#[trigger] ev[j] matches SpecEvent::Begin(i) ==> i.offset == s.offset) by {
                if j > 0 {
                    assert(ev[j] == ends[j - 1]);
                }
            }
            lemma_nest_one(s.stack, SpecEvent::Resync);
            assert(nest(s.stack, ev) == Some(s2.stack));
            assert(s2.offset == (s.offset + c) as u64);
        },
        Attempt::Keep(s1, c1, ev0) => {
            let sa = PState { offset: (s1.offset + c1) as u64, ..s1 };
            let (s3, ev3) = match sa.mode {
                ParserMode::Data(len, t) => if len == 0 {
                    (
                        PState { mode: ParserMode::Header, ..sa },
                        ev0 + seq![SpecEvent::Data(super::decode::spec_decode(Seq::empty(), t).unwrap())],
                    )
                } else {
                    (sa, ev0)
                },
                _ => (sa, ev0),
            };
            let n = expired_count(s3.stack, s3.offset);
            lemma_expired(s3.stack, s3.offset);
            lemma_nest_ends(s3.stack, n);
            let ends = end_events(s3.stack, n);
            assert(ev == ev3 + ends);
            assert(ev3.len() <= 2);
            lemma_nest_concat(s.stack, ev3, ends);
            if ev0.len() == 1 {
                lemma_nest_one(s.stack, ev0[0]);
                assert(seq![ev0[0]] =~= ev0);
                if ev3.len() == 2 {
                    let tail = ev3.subrange(1, 2);
                    assert(ev3 =~= ev0 + tail);
                    assert(tail =~= seq![ev3[1]]);
                    lemma_nest_concat(s.stack, ev0, tail);
                    lemma_nest_one(s1.stack, ev3[1]);
                }
            } else if ev3.len() == 1 {
                lemma_nest_one(s.stack, ev3[0]);
                assert(seq![ev3[0]] =~= ev3);
            } else {
                assert(ev3 =~= Seq::<SpecEvent>::empty());
            }
            assert forall|j: int| 0 <= j < ev.len() implies (#[trigger] ev[j] matches SpecEvent::End(i) ==> !retained(i, s2.offset)) by {
                if j >= ev3.len() {
                    assert(ev[j] == ends[j - ev3.len()]);
                } else {
                    assert(ev[j] == ev3[j]);
                }
            }
            assert forall|j: int| 0 <= j < ev.len() implies (#[trigger] ev[j] matches SpecEvent::Begin(i) ==> i.offset == s.offset) by {
                if j >= ev3.len() {
                    assert(ev[j] == ends[j - ev3.len()]);
                } else {
                    assert(ev[j] == ev3[j]);
                }
            }
            assert(nest(s.stack, ev3) == Some(s3.stack));
            assert(nest(s.stack, ev) == Some(s2.stack));
            assert(s2.offset == (s.offset + c) as u64);
        },
    }
}

/// Over a run of the parser, the events nest from the elements open at its
/// start to those open at its end.
pub proof fn lemma_run_nests(s: PState, buf: Seq<u8>, f: nat)
    requires
        run(s, buf, f) is Some,
    ensures
        nest(s.stack, run(s, buf, f).unwrap().2) == Some(run(s, buf, f).unwrap().0.stack),
    decreases f,
{
    match step(s, buf) {
        None => {},
        Some((s2, c, ev)) => {
            lemma_step_nests(s, buf);
            let rest = buf.subrange(c as int, buf.len() as int);
            lemma_run_nests(s2, rest, (f - 1) as nat);
            let ev2 = run(s2, rest, (f - 1) as nat).unwrap().2;
            lemma_nest_concat(s.stack, ev, ev2);
        },
    }
}

/// Over a run of the parser that stays within `u64` offsets, every element
/// that begins, begins at an offset between the run's start and end, and
/// every element that ends has been passed by the offset at the run's end.
pub proof fn lemma_run_offsets(s: PState, buf: Seq<u8>, f: nat)
    requires
        run(s, buf, f) is Some,
        s.offset + buf.len() <= u64::MAX,
    ensures
        ({
            let (s3, rest, ev) = run(s, buf, f).unwrap();
            &&& s.offset <= s3.offset
            &&& s3.offset + rest.len() == s.offset + buf.len()
            &&& forall|j: int| 0 <= j < ev.len() ==> (#[trigger] ev[j] matches SpecEvent::Begin(i) ==> s.offset <= i.offset <= s3.offset)
            &&& forall|j: int| 0 <= j < ev.len() ==> (#[trigger] ev[j] matches SpecEvent::End(i) ==> !retained(i, s3.offset))
        }),
    decreases f,
{
    match step(s, buf) {
        None => {},
        Some((s2, c, ev)) => {
            lemma_step_nests(s, buf);
            super::machine::lemma_attempt_consumed_le(s, buf);
            let rest = buf.subrange(c as int, buf.len() as int);
            lemma_run_offsets(s2, rest, (f - 1) as nat);
            let (s3, rest3, ev2) = run(s2, rest, (f - 1) as nat).unwrap();
            let all = ev + ev2;
            assert forall|j: int| 0 <= j < all.len() implies (#[trigger] all[j] matches SpecEvent::Begin(i) ==> s.offset <= i.offset <= s3.offset) by {
                if j < ev.len() {
                    assert(all[j] == ev[j]);
                } else {
                    assert(all[j] == ev2[j - ev.len()]);
                }
            }
            assert forall|j: int| 0 <= j < all.len() implies (#[trigger] all[j] matches SpecEvent::End(i) ==> !retained(i, s3.offset)) by {
                if j < ev.len() {
                    assert(all[j] == ev[j]);
                } else {
                    assert(all[j] == ev2[j - ev.len()]);
                }
            }
        },
    }
}

/// Every `End` that feeding bytes produces closes the element begun last
/// and still open, and carries its `Info`: the events of feeding nest from
/// the elements open before to those open after. Within `u64` offsets,
/// every element that begins, begins between the offsets before and after,
/// and every element that ends has been passed by the offset after. (Each
/// step begins an element at the offset where it starts and ends one only
/// once its offset has passed the element's last byte: `lemma_step_nests`.)
pub proof fn lemma_feed_nests(s: PState, buf: Seq<u8>)
    requires
        terminates(s, buf),
    ensures
        nest(s.stack, outcome(s, buf).2) == Some(outcome(s, buf).0.stack),
        s.offset + buf.len() <= u64::MAX ==> ({
            let (s3, _, ev) = outcome(s, buf);
            &&& forall|j: int| 0 <= j < ev.len() ==> (#[trigger] ev[j] matches SpecEvent::Begin(i) ==> s.offset <= i.offset <= s3.offset)
            &&& forall|j: int| 0 <= j < ev.len() ==> (#[trigger] ev[j] matches SpecEvent::End(i) ==> !retained(i, s3.offset))
        }),
{
    let f = choose|f: nat| (#[trigger] run(s, buf, f)) is Some;
    lemma_run_nests(s, buf, f);
    if s.offset + buf.len() <= u64::MAX {
        lemma_run_offsets(s, buf, f);
    }
}

} // verus!
