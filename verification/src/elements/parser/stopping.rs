//! When the parser stops. It stops on every input except one: after
//! resynchronising at a top-level ID whose header is malformed, it fails
//! there again and resynchronises at the same ID, forever.

use vstd::prelude::*;
use super::machine::{
    ParserMode, PState, Attempt, attempt, attempt_resync, step, run, terminates, close_expired, expired_count,
    retained,
};

verus! {

/// A rank of the modes that steps consuming nothing go down, except the
/// resynchronisation that finds a top-level ID.
pub open spec fn mode_rank(m: ParserMode) -> nat {
    match m {
        ParserMode::Data(_, _) => 2,
        ParserMode::Header => 1,
        ParserMode::Resync => 0,
    }
}

/// A step that needs more bytes: the parser stops.
pub proof fn lemma_terminates_none(s: PState, buf: Seq<u8>)
    requires
        step(s, buf) is None,
    ensures
        terminates(s, buf),
{
    assert(run(s, buf, 1) is Some);
}

/// A step neither gains nor loses stopping.
pub proof fn lemma_terminates_step(s: PState, buf: Seq<u8>)
    requires
        step(s, buf) is Some,
    ensures
        terminates(s, buf) == terminates(
            step(s, buf).unwrap().0,
            buf.subrange(step(s, buf).unwrap().1 as int, buf.len() as int),
        ),
{
    let (s2, c, _) = step(s, buf).unwrap();
    let rest = buf.subrange(c as int, buf.len() as int);
    if terminates(s, buf) {
        let f = choose|f: nat| (#[trigger] run(s, buf, f)) is Some;
        assert(run(s2, rest, (f - 1) as nat) is Some);
    }
    if terminates(s2, rest) {
        let f = choose|f: nat| (#[trigger] run(s2, rest, f)) is Some;
        assert(run(s, buf, f + 1) is Some);
    }
}

/// Two states that step to each other, consuming nothing, never stop.
proof fn lemma_cycle_run(s: PState, s1: PState, buf: Seq<u8>, f: nat)
    requires
        step(s, buf) matches Some((x, c, _)) && x == s1 && c == 0,
        step(s1, buf) matches Some((y, d, _)) && y == s && d == 0,
    ensures
        run(s, buf, f) is None,
    decreases f,
{
    assert(buf.subrange(0, buf.len() as int) =~= buf);
    if f >= 2 {
        lemma_cycle_run(s, s1, buf, (f - 2) as nat);
        assert(run(s1, buf, (f - 1) as nat) is None);
    } else if f == 1 {
        assert(run(s1, buf, 0) is None);
    }
}

/// Closing the elements that ended leaves none that ended.
proof fn lemma_expired_zero(stack: Seq<super::Info>, cur: u64)
    ensures
        expired_count(stack, cur) <= stack.len(),
        expired_count(stack.subrange(0, stack.len() - expired_count(stack, cur)), cur) == 0,
    decreases stack.len(),
{
    if stack.len() == 0 {
        assert(stack.subrange(0, 0).len() == 0);
    } else if retained(stack.last(), cur) {
        assert(stack.subrange(0, stack.len() as int) =~= stack);
    } else {
        let n = expired_count(stack, cur);
        lemma_expired_zero(stack.drop_last(), cur);
        assert(stack.drop_last().subrange(0, stack.len() - 1 - (n - 1)) =~= stack.subrange(0, stack.len() - n));
    }
}

/// After the elements that ended are closed, none is left to close.
proof fn lemma_close_expired_twice(s: PState)
    ensures
        close_expired(close_expired(s).0).0 == close_expired(s).0,
{
    let n = expired_count(s.stack, s.offset);
    let st = s.stack.subrange(0, s.stack.len() - n);
    lemma_expired_zero(s.stack, s.offset);
    assert(st.subrange(0, st.len() as int) =~= st);
}

/// The one way the parser does not stop: from resync mode it finds a
/// top-level ID without consuming, and then fails on the header there
/// without consuming. It then goes round between these two states.
pub proof fn lemma_sync_fail_loops(s: PState, buf: Seq<u8>)
    requires
        s.mode is Resync,
        step(s, buf) is Some,
        step(s, buf).unwrap().1 == 0,
        step(step(s, buf).unwrap().0, buf) is Some,
        step(step(s, buf).unwrap().0, buf).unwrap().1 == 0,
    ensures
        !terminates(s, buf),
{
    let (s2, _, _) = step(s, buf).unwrap();
    let (s3, _, _) = step(s2, buf).unwrap();
    assert(buf.subrange(0, buf.len() as int) =~= buf);
    assert(attempt(s, buf) == attempt_resync(s, buf));
    assert(s2 == close_expired(PState { mode: ParserMode::Header, ..s }).0);
    lemma_close_expired_twice(PState { mode: ParserMode::Header, ..s });
    lemma_close_expired_twice(PState { mode: ParserMode::Resync, ..s2 });
    assert(s3.mode is Resync);
    assert(step(s3, buf) matches Some((x, c, _)) && x == s2 && c == 0);
    assert forall|f: nat| !(#[trigger] run(s2, buf, f) is Some) by {
        lemma_cycle_run(s2, s3, buf, f);
    }
    lemma_terminates_step(s, buf);
}

/// A step that consumes nothing goes down in rank, but for the
/// resynchronisation that finds a top-level ID, which goes to header mode.
pub proof fn lemma_step_rank(s: PState, buf: Seq<u8>)
    requires
        step(s, buf) matches Some((_, c, _)) && c == 0,
    ensures
        s.mode is Resync ==> step(s, buf).unwrap().0.mode is Header,
        !(s.mode is Resync) ==> mode_rank(step(s, buf).unwrap().0.mode) < mode_rank(s.mode),
{
}

} // verus!
