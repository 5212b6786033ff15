//! What holds of the parser across calls: feeding bytes in pieces or all at
//! once gives the same events and leaves the parser in the same state.

use vstd::prelude::*;
use crate::numbers::be_value;
use super::parse_ebml_number::{Mode, Result, spec_ebml_result, spec_ebml_consumed, ebml_value_bytes, ebml_is_nan};
use super::{EventsHandler, takes_all, lemma_takes_all_concat};
use super::machine::{
    PState, SpecEvent, Attempt, attempt, attempt_header, attempt_resync, step, run, terminates, outcome,
};

verus! {

/// Once an EBML number can be read (or is malformed), more bytes after it
/// do not change it.
pub proof fn lemma_ebml_prefix(buf: Seq<u8>, m: Seq<u8>, mode: Mode)
    requires
        spec_ebml_result(buf, mode) != Result::NotEnoughData,
    ensures
        spec_ebml_result(buf + m, mode) == spec_ebml_result(buf, mode),
        spec_ebml_consumed(buf + m, mode) == spec_ebml_consumed(buf, mode),
{
    let bm = buf + m;
    assert(bm[0] == buf[0]);
    let n = super::parse_ebml_number::ebml_width(buf[0]);
    if n > 0 && buf.len() >= n {
        assert(bm.subrange(1, n as int) =~= buf.subrange(1, n as int));
        assert(ebml_value_bytes(bm, mode) =~= ebml_value_bytes(buf, mode));
        assert forall|i: int| 1 <= i < n implies bm[i] == buf[i] by {}
        assert(ebml_is_nan(bm) == ebml_is_nan(buf));
    }
}

/// An attempt that does not need more bytes does the same with more bytes.
proof fn lemma_attempt_prefix(s: PState, buf: Seq<u8>, m: Seq<u8>)
    requires
        !(attempt(s, buf) is NoMore),
    ensures
        attempt(s, buf + m) == attempt(s, buf),
{
    let bm = buf + m;
    match s.mode {
        super::machine::ParserMode::Resync => {
            assert(bm.subrange(0, 4) =~= buf.subrange(0, 4));
        },
        super::machine::ParserMode::Header => {
            lemma_ebml_prefix(buf, m, Mode::Identifier);
            if let Result::Number(_) = spec_ebml_result(buf, Mode::Identifier) {
                let c1 = spec_ebml_consumed(buf, Mode::Identifier);
                let rest = buf.subrange(c1 as int, buf.len() as int);
                assert(bm.subrange(c1 as int, bm.len() as int) =~= rest + m);
                lemma_ebml_prefix(rest, m, Mode::Unsigned);
            }
        },
        super::machine::ParserMode::Data(len, _) => {
            assert(bm.subrange(0, len as int) =~= buf.subrange(0, len as int));
        },
    }
}

/// A step that does not need more bytes does the same with more bytes.
proof fn lemma_step_prefix(s: PState, buf: Seq<u8>, m: Seq<u8>)
    requires
        step(s, buf) is Some,
    ensures
        step(s, buf + m) == step(s, buf),
{
    lemma_attempt_prefix(s, buf, m);
}

/// More fuel does not change a run that stops.
proof fn lemma_run_fuel(s: PState, buf: Seq<u8>, f: nat, g: nat)
    requires
        run(s, buf, f) is Some,
        f <= g,
    ensures
        run(s, buf, g) == run(s, buf, f),
    decreases f,
{
    if let Some((s2, c, ev)) = step(s, buf) {
        lemma_run_fuel(s2, buf.subrange(c as int, buf.len() as int), (f - 1) as nat, (g - 1) as nat);
    }
}

/// A run that stops stops in the state that `outcome` describes.
pub proof fn lemma_outcome(s: PState, buf: Seq<u8>, f: nat)
    requires
        run(s, buf, f) is Some,
    ensures
        terminates(s, buf),
        outcome(s, buf) == run(s, buf, f).unwrap(),
{
    assert(run(s, buf, f) is Some);
    let g = choose|g: nat| (#[trigger] run(s, buf, g)) is Some;
    if f <= g {
        lemma_run_fuel(s, buf, f, g);
    } else {
        lemma_run_fuel(s, buf, g, f);
    }
}

/// Running on `a` and then on what is left of it followed by `b` is
/// running on `a + b`.
pub proof fn lemma_run_concat(s: PState, a: Seq<u8>, b: Seq<u8>, f1: nat, f2: nat)
    requires
        run(s, a, f1) is Some,
        run(run(s, a, f1).unwrap().0, run(s, a, f1).unwrap().1 + b, f2) is Some,
    ensures
        run(s, a + b, f1 + f2) == ({
            let r1 = run(s, a, f1).unwrap();
            let r2 = run(r1.0, r1.1 + b, f2).unwrap();
            Some((r2.0, r2.1, r1.2 + r2.2))
        }),
    decreases f1,
{
    let r1 = run(s, a, f1).unwrap();
    match step(s, a) {
        None => {
            assert(r1.2 =~= Seq::<SpecEvent>::empty());
            lemma_run_fuel(s, a + b, f2, f1 + f2);
            let r2 = run(r1.0, r1.1 + b, f2).unwrap();
            assert(r1.2 + r2.2 =~= r2.2);
        },
        Some((s2, c, ev)) => {
            lemma_step_prefix(s, a, b);
            let a2 = a.subrange(c as int, a.len() as int);
            lemma_run_concat(s2, a2, b, (f1 - 1) as nat, f2);
            assert((a + b).subrange(c as int, (a + b).len() as int) =~= a2 + b);
            assert((f1 + f2 - 1) as nat == ((f1 - 1) as nat + f2) as nat);
            let r1b = run(s2, a2, (f1 - 1) as nat).unwrap();
            let r2 = run(r1b.0, r1b.1 + b, f2).unwrap();
            assert(ev + (r1b.2 + r2.2) =~= (ev + r1b.2) + r2.2);
        },
    }
}

/// Feeding bytes in two pieces is feeding them at once: from state `s`
/// with bytes `p` held back, feeding `a` and then `b` produces, in order,
/// the same events as feeding `a + b`, and ends in the same state with the
/// same bytes held back.
pub proof fn lemma_feed_in_pieces(s: PState, p: Seq<u8>, a: Seq<u8>, b: Seq<u8>)
    requires
        terminates(s, p + a),
        terminates(outcome(s, p + a).0, outcome(s, p + a).1 + b),
    ensures
        terminates(s, p + (a + b)),
        outcome(s, p + (a + b)) == ({
            let first = outcome(s, p + a);
            let second = outcome(first.0, first.1 + b);
            (second.0, second.1, first.2 + second.2)
        }),
{
    let f1 = choose|f: nat| (#[trigger] run(s, p + a, f)) is Some;
    let first = outcome(s, p + a);
    let f2 = choose|f: nat| (#[trigger] run(first.0, first.1 + b, f)) is Some;
    lemma_run_concat(s, p + a, b, f1, f2);
    assert(p + a + b =~= p + (a + b));
    lemma_outcome(s, p + (a + b), f1 + f2);
}

/// What a handler receives does not depend on how the bytes are cut: a
/// handler may become `last` on the events of feeding `a` and then `b`
/// exactly when it may become `last` on the events of feeding `a + b`.
pub proof fn lemma_handler_in_pieces<E: EventsHandler>(s: PState, p: Seq<u8>, a: Seq<u8>, b: Seq<u8>, h: E, last: E)
    requires
        terminates(s, p + a),
        terminates(outcome(s, p + a).0, outcome(s, p + a).1 + b),
    ensures
        takes_all(h, outcome(s, p + (a + b)).2, last) <==> exists|mid: E| #[trigger] takes_all(h, outcome(s, p + a).2, mid)
            && takes_all(mid, outcome(outcome(s, p + a).0, outcome(s, p + a).1 + b).2, last),
{
    lemma_feed_in_pieces(s, p, a, b);
    let first = outcome(s, p + a);
    let second = outcome(first.0, first.1 + b);
    lemma_takes_all_concat(h, first.2, second.2, last);
}

} // verus!
