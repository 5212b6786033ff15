//! Elements written by the generator, read back by the parser and built
//! again by the builder.

use vstd::prelude::*;
use super::{SpecElement, SpecElementContent, FloatBits, Type};
use super::database::{Class, spec_class_to_id, spec_class_to_type};
use super::generator::{
    spec_generate, spec_payload, spec_ebml_number_bytes, EbmlNumberMode, spec_element_id,
    lemma_class_id_roundtrip, lemma_size_roundtrip, lemma_unsigned_payload_roundtrip,
    lemma_signed_payload_roundtrip, lemma_be_bytes_value,
};
use super::parser::{Info, SpecContent, BinaryChunkStatus};
use super::parser::machine::{
    PState, ParserMode, SpecEvent, Attempt, initial_pstate, step, run, terminates, outcome, attempt,
    close_expired, expired_count, retained,
};
use super::parser::decode::spec_decode;
use super::parser::parse_ebml_number::{Mode, Result, spec_ebml_result, spec_ebml_consumed};
use super::parser::laws::{lemma_ebml_prefix, lemma_outcome, lemma_run_concat};
use super::generator::spec_children;
use super::builder::{FrameView, spec_builder_event, empty_frame};
use super::midlevel::{midlevel_run, midlevel_step};
use crate::numbers::pow256;

verus! {

/// An element that the parser reads back as written: of a known class, not
/// a master, its payload of the kind that its class's type says (a signed
/// number or date not negative, a float of single precision, as the
/// generator writes floats), its size below `2^56 - 1`.
pub open spec fn reads_back(e: SpecElement) -> bool {
    let t = spec_class_to_type(e.class);
    &&& e.class != Class::Unknown
    &&& match e.content {
        SpecElementContent::Unsigned(_) => t == Type::Unsigned,
        SpecElementContent::Signed(x) => t == Type::Signed && x >= 0,
        SpecElementContent::MatroskaDate(x) => t == Type::Date && x >= 0,
        SpecElementContent::Binary(_) => t == Type::Binary,
        SpecElementContent::Text(_) => t == Type::TextAscii || t == Type::TextUtf8,
        SpecElementContent::Float(f) => t == Type::Float && f is Single,
        _ => false,
    }
    &&& spec_payload(e).len() < 0xFFFFFFFFFFFFFF
}

/// The parser payload that an element payload reads back as.
pub open spec fn read_content(c: SpecElementContent) -> SpecContent {
    match c {
        SpecElementContent::Unsigned(x) => SpecContent::Unsigned(x),
        SpecElementContent::Signed(x) => SpecContent::Signed(x),
        SpecElementContent::MatroskaDate(x) => SpecContent::MatroskaDate(x),
        SpecElementContent::Text(t) => SpecContent::Text(t),
        SpecElementContent::Float(f) => SpecContent::Float(f),
        SpecElementContent::Binary(b) => SpecContent::Binary(b, BinaryChunkStatus::Full),
        SpecElementContent::Unknown(_, b) => SpecContent::Binary(b, BinaryChunkStatus::Full),
        SpecElementContent::Master(_) => SpecContent::Binary(Seq::empty(), BinaryChunkStatus::Full),
    }
}

/// The builder's levels after the events, in order.
pub open spec fn build_events(frames: Seq<FrameView>, evs: Seq<SpecEvent>) -> Seq<FrameView>
    decreases evs.len(),
{
    if evs.len() == 0 {
        frames
    } else {
        build_events(spec_builder_event(frames, evs[0]), evs.subrange(1, evs.len() as int))
    }
}

/// A payload written for its class's type decodes back.
proof fn lemma_payload_decodes(e: SpecElement)
    requires
        reads_back(e),
    ensures
        spec_decode(spec_payload(e), spec_class_to_type(e.class)) == Some(read_content(e.content)),
{
    reveal_with_fuel(pow256, 9);
    match e.content {
        SpecElementContent::Unsigned(x) => lemma_unsigned_payload_roundtrip(x),
        SpecElementContent::Signed(x) => lemma_signed_payload_roundtrip(x),
        SpecElementContent::MatroskaDate(x) => lemma_signed_payload_roundtrip(x),
        SpecElementContent::Text(t) => {
            vstd::utf8::encode_utf8_valid_utf8(t);
            vstd::utf8::encode_utf8_decode_utf8(t);
        },
        SpecElementContent::Float(FloatBits::Single(b)) => {
            lemma_be_bytes_value(b as nat, 4);
            let v = crate::numbers::be_value(spec_payload(e));
            assert(v == b as nat % 0x100000000);
            vstd::arithmetic::div_mod::lemma_small_mod(b as nat, 0x100000000);
            assert(v as u32 == b);
        },
        _ => {},
    }
}

/// The largest size that the generator writes as a known size, plus one.
pub open spec fn size_limit() -> nat {
    0xFFFFFFFFFFFFFF
}

/// A tree that the parser reads back as written: every leaf reads back
/// (see `reads_back`) and every master element is of a known master class,
/// its payload's size below `2^56 - 1`.
pub open spec fn tree_reads_back(e: SpecElement) -> bool
    decreases e, 1nat,
{
    match e.content {
        SpecElementContent::Master(v) => {
            &&& e.class != Class::Unknown
            &&& spec_class_to_type(e.class) == Type::Master
            &&& spec_payload(e).len() < size_limit()
            &&& children_read_back(v)
        },
        _ => reads_back(e),
    }
}

/// Every element of the sequence reads back (see `tree_reads_back`).
pub open spec fn children_read_back(v: Seq<SpecElement>) -> bool
    decreases v, 0nat,
{
    if v.len() == 0 {
        true
    } else {
        children_read_back(v.drop_last()) && tree_reads_back(v.last())
    }
}

/// The length of an element's header (ID and size).
pub open spec fn header_len(e: SpecElement) -> nat {
    (spec_generate(e).len() - spec_payload(e).len()) as nat
}

/// Where an element written at offset `o` starts and how long it is.
pub open spec fn info_at(e: SpecElement, o: int) -> Info {
    Info { id: spec_class_to_id(e.class), offset: o as u64, length_including_header: Some(spec_generate(e).len() as u64) }
}

/// The events of an element written at offset `o`, read whole: it begins,
/// its payload or the events of its children come, it ends.
pub open spec fn tree_events(e: SpecElement, o: int) -> Seq<SpecEvent>
    decreases e, 1nat,
{
    let body = match e.content {
        SpecElementContent::Master(v) => children_events(v, o + header_len(e)),
        _ => seq![SpecEvent::Data(read_content(e.content))],
    };
    seq![SpecEvent::Begin(info_at(e, o))] + body + seq![SpecEvent::End(info_at(e, o))]
}

/// The events of elements written one after another from offset `o`.
pub open spec fn children_events(v: Seq<SpecElement>, o: int) -> Seq<SpecEvent>
    decreases v, 0nat,
{
    if v.len() == 0 {
        Seq::empty()
    } else {
        children_events(v.drop_last(), o) + tree_events(v.last(), o + super::generator::spec_children(v.drop_last()).len())
    }
}

/// The open elements all reach at least to offset `p`.
pub open spec fn encloses(stack: Seq<Info>, p: int) -> bool {
    forall|i: int| 0 <= i < stack.len() ==> match (#[trigger] stack[i]).length_including_header {
        Some(l) => stack[i].offset + l >= p,
        None => true,
    }
}

/// The state after an element that started in `s` has been read: the
/// element and the open elements that end with it are closed.
pub open spec fn after_tree(s: PState, len: nat) -> PState {
    let p = (s.offset + len) as u64;
    PState { mode: ParserMode::Header, stack: s.stack.subrange(0, s.stack.len() - expired_count(s.stack, p)), offset: p }
}

/// The `End` events of the open elements that end with an element of
/// length `len` that started in `s`.
pub open spec fn ends_after(s: PState, len: nat) -> Seq<SpecEvent> {
    super::parser::machine::end_events(s.stack, expired_count(s.stack, (s.offset + len) as u64))
}

/// When every open element reaches past `p`, none has ended there.
proof fn lemma_none_expired(stack: Seq<Info>, p: u64)
    requires
        forall|i: int| 0 <= i < stack.len() ==> retained(#[trigger] stack[i], p),
    ensures
        expired_count(stack, p) == 0,
{
    if stack.len() > 0 {
        assert(retained(stack[stack.len() - 1], p));
    }
}

/// An element on top that has ended closes before those under it.
proof fn lemma_expired_push(stack: Seq<Info>, info: Info, p: u64)
    requires
        !retained(info, p),
    ensures
        expired_count(stack.push(info), p) == 1 + expired_count(stack, p),
        super::parser::machine::end_events(stack.push(info), 1 + expired_count(stack, p))
            =~= seq![SpecEvent::End(info)] + super::parser::machine::end_events(stack, expired_count(stack, p)),
        stack.push(info).subrange(0, stack.len() + 1 - (1 + expired_count(stack, p)))
            =~= stack.subrange(0, stack.len() - expired_count(stack, p)),
{
    assert(stack.push(info).drop_last() =~= stack);
    assert(stack.push(info).last() == info);
    lemma_expired_le(stack, p);
}

/// No more elements close than are open.
proof fn lemma_expired_le(stack: Seq<Info>, p: u64)
    ensures
        expired_count(stack, p) <= stack.len(),
    decreases stack.len(),
{
    if stack.len() > 0 {
        lemma_expired_le(stack.drop_last(), p);
    }
}

/// The header of a written element reads back in any state that expects a
/// header: the element begins there, with its ID, offset and whole length.
proof fn lemma_header_at(e: SpecElement, s: PState)
    requires
        s.mode is Header,
        e.class != Class::Unknown,
        !(e.content is Unknown),
        (e.content is Master) == (spec_class_to_type(e.class) == Type::Master),
        spec_payload(e).len() < size_limit(),
    ensures
        spec_generate(e) == spec_generate(e).subrange(0, header_len(e) as int) + spec_payload(e),
        spec_generate(e).len() == header_len(e) + spec_payload(e).len(),
        header_len(e) > 0,
        attempt(s, spec_generate(e)) == Attempt::Keep(
            PState {
                mode: if e.content is Master {
                    ParserMode::Header
                } else {
                    ParserMode::Data(spec_payload(e).len() as u64, spec_class_to_type(e.class))
                },
                stack: s.stack.push(info_at(e, s.offset as int)),
                offset: s.offset,
            },
            header_len(e),
            seq![SpecEvent::Begin(info_at(e, s.offset as int))],
        ),
{
    let id = spec_class_to_id(e.class);
    let data = spec_payload(e);
    let n = data.len() as u64;
    let idb = spec_ebml_number_bytes(id, EbmlNumberMode::Identifier);
    let szb = spec_ebml_number_bytes(n, EbmlNumberMode::Unsigned);
    let bytes = spec_generate(e);
    assert(spec_element_id(e) == id);
    assert(bytes == idb + szb + data);
    super::generator::lemma_big_endian_number_value(id);
    assert(bytes.subrange(0, (idb.len() + szb.len()) as int) =~= idb + szb);
    lemma_class_id_roundtrip(e.class);
    assert(bytes =~= idb + (szb + data));
    lemma_ebml_prefix(idb, szb + data, Mode::Identifier);
    let c1 = spec_ebml_consumed(bytes, Mode::Identifier);
    assert(c1 == idb.len());
    let rest = bytes.subrange(c1 as int, bytes.len() as int);
    assert(rest =~= szb + data);
    lemma_size_roundtrip(n);
    lemma_ebml_prefix(szb, data, Mode::Unsigned);
    assert(spec_ebml_result(rest, Mode::Unsigned) == Result::Number(n));
    assert(spec_ebml_consumed(rest, Mode::Unsigned) == szb.len());
}

/// A leaf written at the state's offset reads back: it begins, its
/// payload comes, it ends, and so do the open elements that end with it.
#[verifier::spinoff_prover]
#[verifier::rlimit(40)]
proof fn lemma_leaf_run(e: SpecElement, s: PState) -> (f: nat)
    requires
        s.mode is Header,
        reads_back(e),
        encloses(s.stack, s.offset + spec_generate(e).len()),
        s.offset + spec_generate(e).len() <= u64::MAX,
    ensures
        run(s, spec_generate(e), f) == Some((
            after_tree(s, spec_generate(e).len()),
            Seq::<u8>::empty(),
            tree_events(e, s.offset as int) + ends_after(s, spec_generate(e).len()),
        )),
{
    let bytes = spec_generate(e);
    let data = spec_payload(e);
    let n = data.len() as u64;
    let t = spec_class_to_type(e.class);
    let o = s.offset;
    let info = info_at(e, o as int);
    let hs = header_len(e);
    let len = bytes.len();
    let p = (o + len) as u64;
    lemma_header_at(e, s);
    lemma_payload_decodes(e);
    let k = expired_count(s.stack, p);
    let last = after_tree(s, len);
    let evs = tree_events(e, o as int) + ends_after(s, len);
    assert(!retained(info, p));
    lemma_expired_push(s.stack, info, p);
    assert(step(last, Seq::empty()) is None);
    assert(run(last, Seq::<u8>::empty(), 1) == Some((last, Seq::<u8>::empty(), Seq::<SpecEvent>::empty())));
    if n == 0 {
        assert(data =~= Seq::<u8>::empty());
        let s3 = PState { mode: ParserMode::Header, stack: s.stack.push(info), offset: p };
        assert(close_expired(s3).0 == last);
        assert(step(s, bytes) == Some((last, hs, evs)));
        assert(bytes.subrange(hs as int, bytes.len() as int) =~= Seq::<u8>::empty());
        assert(evs + Seq::<SpecEvent>::empty() =~= evs);
        assert(run(s, bytes, 2) == Some((last, Seq::<u8>::empty(), evs)));
        2
    } else {
        let s1 = PState { mode: ParserMode::Data(n, t), stack: s.stack.push(info), offset: (o + hs) as u64 };
        assert forall|i: int| 0 <= i < s1.stack.len() implies retained(#[trigger] s1.stack[i], s1.offset) by {
            if i < s.stack.len() {
                assert(s1.stack[i] == s.stack[i]);
            }
        }
        lemma_none_expired(s1.stack, s1.offset);
        assert(s1.stack.subrange(0, s1.stack.len() as int) =~= s1.stack);
        assert(close_expired(s1).0 == s1);
        assert(close_expired(s1).1 =~= Seq::<SpecEvent>::empty());
        assert(seq![SpecEvent::Begin(info)] + Seq::<SpecEvent>::empty() =~= seq![SpecEvent::Begin(info)]);
        assert(step(s, bytes) == Some((s1, hs, seq![SpecEvent::Begin(info)])));
        let b1 = bytes.subrange(hs as int, bytes.len() as int);
        assert(b1 =~= data);
        assert(data.subrange(0, n as int) =~= data);
        let s2 = PState { mode: ParserMode::Header, stack: s.stack.push(info), offset: p };
        assert(close_expired(s2).0 == last);
        let ev2 = seq![SpecEvent::Data(read_content(e.content)), SpecEvent::End(info)] + ends_after(s, len);
        assert(seq![SpecEvent::Data(read_content(e.content))] + (seq![SpecEvent::End(info)] + ends_after(s, len)) =~= ev2);
        assert(step(s1, b1) == Some((last, n as nat, ev2)));
        assert(b1.subrange(n as int, b1.len() as int) =~= Seq::<u8>::empty());
        assert(ev2 + Seq::<SpecEvent>::empty() =~= ev2);
        assert(run(s1, b1, 2) == Some((last, Seq::<u8>::empty(), ev2)));
        assert(seq![SpecEvent::Begin(info)] + ev2 =~= evs);
        assert(run(s, bytes, 3) == Some((last, Seq::<u8>::empty(), evs)));
        3
    }
}

/// A tree written at the state's offset reads back: its events come in
/// order, then the `End` of the open elements that end with it.
proof fn lemma_tree_run(e: SpecElement, s: PState) -> (f: nat)
    requires
        s.mode is Header,
        tree_reads_back(e),
        encloses(s.stack, s.offset + spec_generate(e).len()),
        s.offset + spec_generate(e).len() <= u64::MAX,
    ensures
        run(s, spec_generate(e), f) == Some((
            after_tree(s, spec_generate(e).len()),
            Seq::<u8>::empty(),
            tree_events(e, s.offset as int) + ends_after(s, spec_generate(e).len()),
        )),
    decreases e, 1nat,
{
    match e.content {
        SpecElementContent::Master(v) => {
            let bytes = spec_generate(e);
            let data = spec_payload(e);
            let o = s.offset;
            let info = info_at(e, o as int);
            let hs = header_len(e);
            let len = bytes.len();
            let p = (o + len) as u64;
            lemma_header_at(e, s);
            assert(data == spec_children(v));
            let last = after_tree(s, len);
            let evs = tree_events(e, o as int) + ends_after(s, len);
            assert(!retained(info, p));
            lemma_expired_push(s.stack, info, p);
            let s1 = PState { mode: ParserMode::Header, stack: s.stack.push(info), offset: (o + hs) as u64 };
            if v.len() == 0 {
                assert(data =~= Seq::<u8>::empty());
                assert(close_expired(s1).0 == last);
                assert(children_events(v, o + hs) =~= Seq::<SpecEvent>::empty());
                assert(seq![SpecEvent::Begin(info)] + (seq![SpecEvent::End(info)] + ends_after(s, len)) =~= evs);
                assert(step(s, bytes) == Some((last, hs, evs)));
                assert(bytes.subrange(hs as int, bytes.len() as int) =~= Seq::<u8>::empty());
                assert(step(last, Seq::empty()) is None);
                assert(run(last, Seq::<u8>::empty(), 1) == Some((last, Seq::<u8>::empty(), Seq::<SpecEvent>::empty())));
                assert(evs + Seq::<SpecEvent>::empty() =~= evs);
                assert(run(s, bytes, 2) == Some((last, Seq::<u8>::empty(), evs)));
                2
            } else {
                lemma_children_len(v);
                assert forall|i: int| 0 <= i < s1.stack.len() implies retained(#[trigger] s1.stack[i], s1.offset) by {
                    if i < s.stack.len() {
                        assert(s1.stack[i] == s.stack[i]);
                    }
                }
                lemma_none_expired(s1.stack, s1.offset);
                assert(s1.stack.subrange(0, s1.stack.len() as int) =~= s1.stack);
                assert(close_expired(s1).0 == s1);
                assert(close_expired(s1).1 =~= Seq::<SpecEvent>::empty());
                assert(seq![SpecEvent::Begin(info)] + Seq::<SpecEvent>::empty() =~= seq![SpecEvent::Begin(info)]);
                assert(step(s, bytes) == Some((s1, hs, seq![SpecEvent::Begin(info)])));
                let b1 = bytes.subrange(hs as int, bytes.len() as int);
                assert(b1 =~= data);
                assert forall|i: int| 0 <= i < s1.stack.len() implies match (#[trigger] s1.stack[i]).length_including_header {
                    Some(l) => s1.stack[i].offset + l >= s1.offset + data.len(),
                    None => true,
                } by {
                    if i < s.stack.len() {
                        assert(s1.stack[i] == s.stack[i]);
                    }
                }
                let f2 = lemma_children_run(v, s1);
                assert(after_tree(s1, data.len()) == last);
                let ev2 = children_events(v, o + hs) + ends_after(s1, data.len());
                assert(ends_after(s1, data.len()) =~= seq![SpecEvent::End(info)] + ends_after(s, len));
                assert(seq![SpecEvent::Begin(info)] + ev2 =~= evs);
                assert(run(s, bytes, f2 + 1) == Some((last, Seq::<u8>::empty(), evs)));
                f2 + 1
            }
        },
        _ => lemma_leaf_run(e, s),
    }
}

/// Elements written one after another from the state's offset read back:
/// their events come in order, then the `End` of the open elements that
/// end with the last of them.
proof fn lemma_children_run(v: Seq<SpecElement>, s: PState) -> (f: nat)
    requires
        v.len() > 0,
        s.mode is Header,
        children_read_back(v),
        encloses(s.stack, s.offset + spec_children(v).len()),
        s.offset + spec_children(v).len() <= u64::MAX,
    ensures
        run(s, spec_children(v), f) == Some((
            after_tree(s, spec_children(v).len()),
            Seq::<u8>::empty(),
            children_events(v, s.offset as int) + ends_after(s, spec_children(v).len()),
        )),
    decreases v, 0nat,
{
    let prefix = v.drop_last();
    let last = v.last();
    let a = spec_children(prefix);
    let b = spec_generate(last);
    assert(spec_children(v) == a + b);
    lemma_generate_len(last);
    if prefix.len() == 0 {
        assert(a =~= Seq::<u8>::empty());
        assert(a + b =~= b);
        assert(children_events(prefix, s.offset as int) =~= Seq::<SpecEvent>::empty());
        assert(children_events(v, s.offset as int) =~= tree_events(last, s.offset as int));
        lemma_tree_run(last, s)
    } else {
        let f1 = lemma_children_run(prefix, s);
        let pa = (s.offset + a.len()) as u64;
        assert forall|i: int| 0 <= i < s.stack.len() implies retained(#[trigger] s.stack[i], pa) by {}
        lemma_none_expired(s.stack, pa);
        let s2 = after_tree(s, a.len());
        assert(s.stack.subrange(0, s.stack.len() as int) =~= s.stack);
        assert(s2 == PState { mode: ParserMode::Header, stack: s.stack, offset: pa });
        assert(ends_after(s, a.len()) =~= Seq::<SpecEvent>::empty());
        let f2 = lemma_tree_run(last, s2);
        assert(Seq::<u8>::empty() + b =~= b);
        lemma_run_concat(s, a, b, f1, f2);
        assert(after_tree(s2, b.len()) == after_tree(s, (a + b).len()));
        assert(children_events(prefix, s.offset as int) + Seq::<SpecEvent>::empty()
            + (tree_events(last, pa as int) + ends_after(s2, b.len()))
            =~= children_events(v, s.offset as int) + ends_after(s, (a + b).len()));
        f1 + f2
    }
}

/// A written element is never empty.
proof fn lemma_generate_len(e: SpecElement)
    ensures
        spec_generate(e).len() > 0,
{
    super::generator::lemma_big_endian_number_value(spec_element_id(e));
}

/// Written elements one after another are empty only when there are none.
proof fn lemma_children_len(v: Seq<SpecElement>)
    requires
        v.len() > 0,
    ensures
        spec_children(v).len() > 0,
{
    lemma_generate_len(v.last());
}

/// A tree written by the generator (see `tree_reads_back`) is read back by
/// the parser from the start of a stream: its events come in order, with
/// the offsets and lengths of its elements, and the parser stops at its
/// end with nothing left over.
pub proof fn lemma_tree_reads_back(e: SpecElement)
    requires
        tree_reads_back(e),
        spec_generate(e).len() <= u64::MAX,
    ensures
        terminates(initial_pstate(), spec_generate(e)),
        outcome(initial_pstate(), spec_generate(e)) == (
            PState { mode: ParserMode::Header, stack: Seq::empty(), offset: spec_generate(e).len() as u64 },
            Seq::<u8>::empty(),
            tree_events(e, 0),
        ),
{
    let s0 = initial_pstate();
    let len = spec_generate(e).len();
    let f = lemma_tree_run(e, s0);
    assert(Seq::<Info>::empty().subrange(0, 0) =~= Seq::<Info>::empty());
    assert(ends_after(s0, len) =~= Seq::<SpecEvent>::empty());
    assert(tree_events(e, 0) + Seq::<SpecEvent>::empty() =~= tree_events(e, 0));
    lemma_outcome(s0, spec_generate(e), f);
}

/// A new parser (see `ParserState::new`) fed the bytes the generator writes
/// of a tree hands on the tree's events (see `Parser::feed_bytes`): for an
/// element that is not a master, its `Begin`, its payload as written, and
/// its `End`, with offset 0 and the element's whole length.
pub proof fn lemma_new_parser_reads_tree(e: SpecElement, p: super::parser::ParserView)
    requires
        tree_reads_back(e),
        spec_generate(e).len() <= u64::MAX,
        p.state == initial_pstate(),
        p.pending == Seq::<u8>::empty(),
    ensures
        terminates(p.state, p.pending + spec_generate(e)),
        outcome(p.state, p.pending + spec_generate(e)).1 == Seq::<u8>::empty(),
        outcome(p.state, p.pending + spec_generate(e)).2 == tree_events(e, 0),
        !(e.content is Master) ==> tree_events(e, 0) == seq![
            SpecEvent::Begin(info_at(e, 0)),
            SpecEvent::Data(read_content(e.content)),
            SpecEvent::End(info_at(e, 0)),
        ],
{
    assert(p.pending + spec_generate(e) =~= spec_generate(e));
    lemma_tree_reads_back(e);
    if !(e.content is Master) {
        assert(tree_events(e, 0) =~= seq![
            SpecEvent::Begin(info_at(e, 0)),
            SpecEvent::Data(read_content(e.content)),
            SpecEvent::End(info_at(e, 0)),
        ]);
    }
}

/// The builder can take a new element at its deepest level: the levels
/// above it have an element open, the deepest has none.
pub open spec fn builder_ready(frames: Seq<FrameView>) -> bool {
    &&& frames.len() >= 1
    &&& forall|i: int| 1 <= i < frames.len() - 1 ==> (#[trigger] frames[i]).in_middle
    &&& !frames.last().in_middle
}

/// Building events in two runs is building them in one.
proof fn lemma_build_concat(frames: Seq<FrameView>, a: Seq<SpecEvent>, b: Seq<SpecEvent>)
    ensures
        build_events(frames, a + b) == build_events(build_events(frames, a), b),
    decreases a.len(),
{
    if a.len() > 0 {
        assert((a + b)[0] == a[0]);
        assert((a + b).subrange(1, (a + b).len() as int) =~= a.subrange(1, a.len() as int) + b);
        lemma_build_concat(spec_builder_event(frames, a[0]), a.subrange(1, a.len() as int), b);
    } else {
        assert(a + b =~= b);
    }
}

/// The level that an `End` closes, when the levels from `j + 1` to `m`
/// have an element open and the one below `m` (if any) has none, is `m`.
proof fn lemma_end_level(frames: Seq<FrameView>, j: nat, m: nat)
    requires
        j <= m < frames.len(),
        forall|i: int| j < i <= m ==> (#[trigger] frames[i]).in_middle,
        m + 1 >= frames.len() || !frames[(m + 1) as int].in_middle,
    ensures
        super::builder::end_level(frames, j) == m,
    decreases m - j,
{
    if j < m {
        assert(frames[(j + 1) as int].in_middle);
        lemma_end_level(frames, j + 1, m);
    }
}

/// Building one event is taking it in.
proof fn lemma_build_one(frames: Seq<FrameView>, x: SpecEvent)
    ensures
        build_events(frames, seq![x]) == spec_builder_event(frames, x),
{
    assert(seq![x].subrange(1, 1) =~= Seq::<SpecEvent>::empty());
    assert(build_events(spec_builder_event(frames, x), Seq::<SpecEvent>::empty()) == spec_builder_event(frames, x));
}

/// A builder that can take a new element, fed the events of a tree, takes
/// the tree as the next element of its deepest level.
proof fn lemma_tree_builds(e: SpecElement, o: int, frames: Seq<FrameView>)
    requires
        tree_reads_back(e),
        builder_ready(frames),
    ensures
        build_events(frames, tree_events(e, o)) == frames.update(frames.len() - 1, FrameView {
            ce: frames.last().ce.push(e),
            cc: None,
            cid: spec_class_to_id(e.class),
            in_middle: false,
        }),
    decreases e, 1nat,
{
    let k = frames.len() - 1;
    let id = spec_class_to_id(e.class);
    let info = info_at(e, o);
    lemma_class_id_roundtrip(e.class);
    let f1 = spec_builder_event(frames, SpecEvent::Begin(info));
    let fk1 = FrameView { in_middle: true, cid: id, ..frames[k] };
    let done = frames.update(k, FrameView { ce: frames.last().ce.push(e), cc: None, cid: id, in_middle: false });
    let body = match e.content {
        SpecElementContent::Master(v) => children_events(v, o + header_len(e)),
        _ => seq![SpecEvent::Data(read_content(e.content))],
    };
    assert(tree_events(e, o) == seq![SpecEvent::Begin(info)] + body + seq![SpecEvent::End(info)]);
    lemma_build_concat(frames, seq![SpecEvent::Begin(info)] + body, seq![SpecEvent::End(info)]);
    lemma_build_concat(frames, seq![SpecEvent::Begin(info)], body);
    lemma_build_one(frames, SpecEvent::Begin(info));
    match e.content {
        SpecElementContent::Master(v) => {
            assert(f1 == frames.update(k, fk1).push(empty_frame()));
            assert(builder_ready(f1)) by {
                assert forall|i: int| 1 <= i < f1.len() - 1 implies (#[trigger] f1[i]).in_middle by {
                    if i < k {
                        assert(f1[i] == frames[i]);
                    }
                }
            }
            lemma_children_builds(v, o + header_len(e), f1);
            let f2 = build_events(f1, body);
            assert(f2.subrange(0, k + 1) == f1.subrange(0, k + 1));
            assert forall|i: int| 0 < i <= k implies (#[trigger] f2[i]).in_middle by {
                assert(f2[i] == f2.subrange(0, k + 1)[i]);
                assert(f1[i] == f1.subrange(0, k + 1)[i]);
                if i < k {
                    assert(f1[i] == frames[i]);
                }
            }
            assert(f2[k] == f2.subrange(0, k + 1)[k]);
            assert(f1[k] == f1.subrange(0, k + 1)[k]);
            assert(f2[k] == fk1);
            lemma_end_level(f2, 0, k as nat);
            assert(f2[k + 1].ce =~= v);
            assert(e == SpecElement { class: e.class, content: SpecElementContent::Master(v) });
            let f3 = spec_builder_event(f2, SpecEvent::End(info));
            assert(f2.subrange(0, k) =~= frames.subrange(0, k)) by {
                assert forall|i: int| 0 <= i < k implies f2.subrange(0, k)[i] == frames.subrange(0, k)[i] by {
                    assert(f2[i] == f2.subrange(0, k + 1)[i]);
                    assert(f1[i] == f1.subrange(0, k + 1)[i]);
                    assert(f1[i] == frames[i]);
                }
            }
            assert(f3 =~= done);
            lemma_build_one(f2, SpecEvent::End(info));
        },
        _ => {
            assert(f1 == frames.update(k, fk1));
            let c = read_content(e.content);
            assert(super::builder::spec_content_of(c) == e.content);
            let f2 = f1.update(k, FrameView { cc: Some(e.content), ..fk1 });
            assert(spec_builder_event(f1, SpecEvent::Data(c)) == f2);
            lemma_build_one(f1, SpecEvent::Data(c));
            assert forall|i: int| 0 < i <= k implies (#[trigger] f2[i]).in_middle by {
                if i < k {
                    assert(f2[i] == frames[i]);
                }
            }
            lemma_end_level(f2, 0, k as nat);
            let f3 = spec_builder_event(f2, SpecEvent::End(info));
            assert(f2.subrange(0, k) =~= frames.subrange(0, k));
            assert(f3 =~= done);
            lemma_build_one(f2, SpecEvent::End(info));
        },
    }
}

/// A builder that can take a new element, fed the events of elements one
/// after another, adds them to its deepest level, in order.
proof fn lemma_children_builds(v: Seq<SpecElement>, o: int, frames: Seq<FrameView>)
    requires
        children_read_back(v),
        builder_ready(frames),
    ensures
        build_events(frames, children_events(v, o)).len() == frames.len(),
        build_events(frames, children_events(v, o)).subrange(0, frames.len() - 1) == frames.subrange(0, frames.len() - 1),
        build_events(frames, children_events(v, o))[frames.len() - 1].ce == frames.last().ce + v,
        !build_events(frames, children_events(v, o))[frames.len() - 1].in_middle,
    decreases v, 0nat,
{
    let k = frames.len() - 1;
    if v.len() == 0 {
        assert(children_events(v, o) =~= Seq::<SpecEvent>::empty());
        assert(frames.last().ce + v =~= frames.last().ce);
    } else {
        let prefix = v.drop_last();
        let last = v.last();
        let po = o + spec_children(prefix).len();
        lemma_children_builds(prefix, o, frames);
        let r1 = build_events(frames, children_events(prefix, o));
        assert(builder_ready(r1)) by {
            assert forall|i: int| 1 <= i < r1.len() - 1 implies (#[trigger] r1[i]).in_middle by {
                assert(r1[i] == r1.subrange(0, k)[i]);
                assert(frames[i] == frames.subrange(0, k)[i]);
            }
        }
        lemma_tree_builds(last, po, r1);
        lemma_build_concat(frames, children_events(prefix, o), tree_events(last, po));
        let r2 = build_events(frames, children_events(v, o));
        assert(r2.subrange(0, k) =~= r1.subrange(0, k));
        assert(frames.last().ce + prefix.push(last) =~= (frames.last().ce + prefix).push(last));
        assert(prefix.push(last) =~= v);
    }
}

/// The levels above the deepest of `f` are as they were in `g`, and `g`
/// has at least as many levels.
pub open spec fn keeps_upper(f: Seq<FrameView>, g: Seq<FrameView>) -> bool {
    &&& g.len() >= f.len()
    &&& g.subrange(0, f.len() - 1) == f.subrange(0, f.len() - 1)
}

/// `keeps_upper` goes through a deeper level.
proof fn lemma_keeps_upper_trans(f: Seq<FrameView>, g: Seq<FrameView>, h: Seq<FrameView>)
    requires
        f.len() >= 1,
        keeps_upper(f, g),
        keeps_upper(g, h),
    ensures
        keeps_upper(f, h),
{
    assert forall|i: int| 0 <= i < f.len() - 1 implies #[trigger] h.subrange(0, f.len() - 1)[i] == f.subrange(0, f.len() - 1)[i] by {
        assert(h[i] == h.subrange(0, g.len() - 1)[i]);
        assert(g[i] == g.subrange(0, g.len() - 1)[i]);
        assert(g[i] == g.subrange(0, f.len() - 1)[i]);
        assert(f[i] == f.subrange(0, f.len() - 1)[i]);
    }
    assert(h.subrange(0, f.len() - 1) =~= f.subrange(0, f.len() - 1));
}

/// The first `m` events of `a` then `b`.
proof fn lemma_take_concat(a: Seq<SpecEvent>, b: Seq<SpecEvent>, m: int)
    requires
        0 <= m <= a.len() + b.len(),
    ensures
        m <= a.len() ==> (a + b).take(m) == a.take(m),
        m > a.len() ==> (a + b).take(m) == a + b.take(m - a.len()),
{
    if m <= a.len() {
        assert((a + b).take(m) =~= a.take(m));
    } else {
        assert((a + b).take(m) =~= a + b.take(m - a.len()));
    }
}

/// While a builder that can take a new element takes the events of a tree,
/// the levels above its deepest stay as they are.
proof fn lemma_tree_builds_prefix(e: SpecElement, o: int, frames: Seq<FrameView>, m: int)
    requires
        tree_reads_back(e),
        builder_ready(frames),
        0 <= m <= tree_events(e, o).len(),
    ensures
        keeps_upper(frames, build_events(frames, tree_events(e, o).take(m))),
    decreases e, 1nat,
{
    let k = frames.len() - 1;
    let info = info_at(e, o);
    let evs = tree_events(e, o);
    let body = match e.content {
        SpecElementContent::Master(v) => children_events(v, o + header_len(e)),
        _ => seq![SpecEvent::Data(read_content(e.content))],
    };
    assert(evs == seq![SpecEvent::Begin(info)] + body + seq![SpecEvent::End(info)]);
    lemma_class_id_roundtrip(e.class);
    lemma_tree_builds(e, o, frames);
    if m == 0 {
        assert(evs.take(0) =~= Seq::<SpecEvent>::empty());
        assert(frames.subrange(0, k) =~= frames.subrange(0, k));
    } else if m == evs.len() {
        assert(evs.take(m) =~= evs);
        let g = build_events(frames, evs);
        assert(g.subrange(0, k) =~= frames.subrange(0, k));
    } else {
        let f1 = spec_builder_event(frames, SpecEvent::Begin(info));
        lemma_build_one(frames, SpecEvent::Begin(info));
        let m1 = m - 1;
        assert(evs.take(m) =~= seq![SpecEvent::Begin(info)] + body.take(m1));
        lemma_build_concat(frames, seq![SpecEvent::Begin(info)], body.take(m1));
        let fk1 = FrameView { in_middle: true, cid: spec_class_to_id(e.class), ..frames[k] };
        match e.content {
            SpecElementContent::Master(v) => {
                assert(f1 == frames.update(k, fk1).push(empty_frame()));
                assert(keeps_upper(frames, f1)) by {
                    assert(f1.subrange(0, k) =~= frames.subrange(0, k));
                }
                assert(builder_ready(f1)) by {
                    assert forall|i: int| 1 <= i < f1.len() - 1 implies (#[trigger] f1[i]).in_middle by {
                        if i < k {
                            assert(f1[i] == frames[i]);
                        }
                    }
                }
                lemma_children_builds_prefix(v, o + header_len(e), f1, m1);
                lemma_keeps_upper_trans(frames, f1, build_events(f1, body.take(m1)));
            },
            _ => {
                assert(f1 == frames.update(k, fk1));
                let g = build_events(f1, body.take(m1));
                if m1 == 0 {
                    assert(body.take(0) =~= Seq::<SpecEvent>::empty());
                    assert(g.subrange(0, k) =~= frames.subrange(0, k));
                } else {
                    assert(body.take(m1) =~= body);
                    lemma_build_one(f1, body[0]);
                    assert(body =~= seq![body[0]]);
                    assert(g.subrange(0, k) =~= frames.subrange(0, k));
                }
            },
        }
    }
}

/// While a builder that can take a new element takes the events of
/// elements one after another, the levels above its deepest stay as they
/// are.
proof fn lemma_children_builds_prefix(v: Seq<SpecElement>, o: int, frames: Seq<FrameView>, m: int)
    requires
        children_read_back(v),
        builder_ready(frames),
        0 <= m <= children_events(v, o).len(),
    ensures
        keeps_upper(frames, build_events(frames, children_events(v, o).take(m))),
    decreases v, 0nat,
{
    let k = frames.len() - 1;
    if v.len() == 0 {
        assert(children_events(v, o).take(m) =~= Seq::<SpecEvent>::empty());
        assert(frames.subrange(0, k) =~= frames.subrange(0, k));
    } else {
        let prefix = v.drop_last();
        let last = v.last();
        let po = o + spec_children(prefix).len();
        let a = children_events(prefix, o);
        let b = tree_events(last, po);
        lemma_take_concat(a, b, m);
        if m <= a.len() {
            lemma_children_builds_prefix(prefix, o, frames, m);
        } else {
            lemma_children_builds(prefix, o, frames);
            let r1 = build_events(frames, a);
            assert(keeps_upper(frames, r1));
            assert(builder_ready(r1)) by {
                assert forall|i: int| 1 <= i < r1.len() - 1 implies (#[trigger] r1[i]).in_middle by {
                    assert(r1[i] == r1.subrange(0, k)[i]);
                    assert(frames[i] == frames.subrange(0, k)[i]);
                }
            }
            lemma_build_concat(frames, a, b.take(m - a.len()));
            lemma_tree_builds_prefix(last, po, r1, m - a.len());
            lemma_keeps_upper_trans(frames, r1, build_events(r1, b.take(m - a.len())));
        }
    }
}

/// A tree written by the generator (see `tree_reads_back`), read back by
/// the parser and fed to a new builder, is built again: the builder holds
/// that tree and nothing else.
pub proof fn lemma_tree_builds_back(e: SpecElement)
    requires
        tree_reads_back(e),
    ensures
        build_events(seq![empty_frame()], tree_events(e, 0)) == seq![FrameView {
            ce: seq![e],
            cc: None,
            cid: spec_class_to_id(e.class),
            in_middle: false,
        }],
{
    lemma_tree_builds(e, 0, seq![empty_frame()]);
    assert(Seq::<SpecElement>::empty().push(e) =~= seq![e]);
    assert(seq![empty_frame()].update(0, FrameView { ce: seq![e], cc: None, cid: spec_class_to_id(e.class), in_middle: false })
        =~= seq![FrameView { ce: seq![e], cc: None, cid: spec_class_to_id(e.class), in_middle: false }]);
}

/// What the generator writes of a tree (see `tree_reads_back`), parsed
/// from the start of a stream and fed to a new builder, is built again:
/// writing, reading and building give back the tree.
pub proof fn lemma_generate_parse_build(e: SpecElement)
    requires
        tree_reads_back(e),
        spec_generate(e).len() <= u64::MAX,
    ensures
        terminates(initial_pstate(), spec_generate(e)),
        build_events(seq![empty_frame()], outcome(initial_pstate(), spec_generate(e)).2)[0].ce == seq![e],
{
    lemma_tree_reads_back(e);
    lemma_tree_builds_back(e);
}

/// The events of a tree hold no `Resync`.
proof fn lemma_tree_no_resync(e: SpecElement, o: int)
    ensures
        forall|j: int| 0 <= j < tree_events(e, o).len() ==> !(#[trigger] tree_events(e, o)[j] is Resync),
    decreases e, 1nat,
{
    let info = info_at(e, o);
    let body = match e.content {
        SpecElementContent::Master(v) => children_events(v, o + header_len(e)),
        _ => seq![SpecEvent::Data(read_content(e.content))],
    };
    match e.content {
        SpecElementContent::Master(v) => lemma_children_no_resync(v, o + header_len(e)),
        _ => {},
    }
    let evs = tree_events(e, o);
    assert(evs == seq![SpecEvent::Begin(info)] + body + seq![SpecEvent::End(info)]);
    assert forall|j: int| 0 <= j < evs.len() implies !(#[trigger] evs[j] is Resync) by {
        if 1 <= j < evs.len() - 1 {
            assert(evs[j] == body[j - 1]);
        }
    }
}

/// The events of elements one after another hold no `Resync`.
proof fn lemma_children_no_resync(v: Seq<SpecElement>, o: int)
    ensures
        forall|j: int| 0 <= j < children_events(v, o).len() ==> !(#[trigger] children_events(v, o)[j] is Resync),
    decreases v, 0nat,
{
    if v.len() > 0 {
        let prefix = v.drop_last();
        let po = o + spec_children(prefix).len();
        lemma_children_no_resync(prefix, o);
        lemma_tree_no_resync(v.last(), po);
        let a = children_events(prefix, o);
        let b = tree_events(v.last(), po);
        assert forall|j: int| 0 <= j < (a + b).len() implies !(#[trigger] (a + b)[j] is Resync) by {
            if j < a.len() {
                assert((a + b)[j] == a[j]);
            } else {
                assert((a + b)[j] == b[j - a.len()]);
            }
        }
    }
}

/// Building on after one more event.
proof fn lemma_midlevel_run_push(b: Option<Seq<FrameView>>, evs: Seq<SpecEvent>, x: SpecEvent)
    ensures
        midlevel_run(b, evs.push(x)) == midlevel_step(midlevel_run(b, evs), x),
    decreases evs.len(),
{
    if evs.len() == 0 {
        assert(evs.push(x) =~= seq![x]);
        assert(seq![x].subrange(1, 1) =~= Seq::<SpecEvent>::empty());
        assert(midlevel_run(midlevel_step(b, x), Seq::<SpecEvent>::empty()) == midlevel_step(b, x));
        assert(midlevel_run(b, evs) == b);
    } else {
        assert(evs.push(x)[0] == evs[0]);
        assert(evs.push(x).subrange(1, (evs.len() + 1) as int) =~= evs.subrange(1, evs.len() as int).push(x));
        lemma_midlevel_run_push(midlevel_step(b, evs[0]), evs.subrange(1, evs.len() as int), x);
    }
}

/// The builder that took the first `m` events of a tree (but not all of
/// them) from nothing has built no element whole.
proof fn lemma_midlevel_no_capture(e: SpecElement, o: int, m: int)
    requires
        tree_reads_back(e),
        1 <= m < tree_events(e, o).len(),
    ensures
        build_events(seq![empty_frame()], tree_events(e, o).take(m))[0].ce.len() == 0,
{
    let f0 = seq![empty_frame()];
    let evs = tree_events(e, o);
    let info = info_at(e, o);
    let body = match e.content {
        SpecElementContent::Master(v) => children_events(v, o + header_len(e)),
        _ => seq![SpecEvent::Data(read_content(e.content))],
    };
    assert(evs == seq![SpecEvent::Begin(info)] + body + seq![SpecEvent::End(info)]);
    lemma_class_id_roundtrip(e.class);
    let f1 = spec_builder_event(f0, SpecEvent::Begin(info));
    lemma_build_one(f0, SpecEvent::Begin(info));
    let fk1 = FrameView { in_middle: true, cid: spec_class_to_id(e.class), ..empty_frame() };
    assert(evs.take(m) =~= seq![SpecEvent::Begin(info)] + body.take(m - 1));
    lemma_build_concat(f0, seq![SpecEvent::Begin(info)], body.take(m - 1));
    let g = build_events(f1, body.take(m - 1));
    match e.content {
        SpecElementContent::Master(v) => {
            assert(f1 == f0.update(0, fk1).push(empty_frame()));
            assert(builder_ready(f1));
            lemma_children_builds_prefix(v, o + header_len(e), f1, m - 1);
            assert(g[0] == g.subrange(0, 1)[0]);
            assert(f1[0] == f1.subrange(0, 1)[0]);
        },
        _ => {
            assert(f1 == f0.update(0, fk1));
            if m - 1 == 0 {
                assert(body.take(0) =~= Seq::<SpecEvent>::empty());
            } else {
                assert(body.take(m - 1) =~= seq![body[0]]);
                lemma_build_one(f1, body[0]);
            }
        },
    }
}

/// A mid-level parser that has a tree built builds on through the tree's
/// events before its last: it holds what a new builder holds after them.
proof fn lemma_midlevel_prefix(e: SpecElement, o: int, m: int)
    requires
        tree_reads_back(e),
        1 <= m < tree_events(e, o).len(),
    ensures
        midlevel_run(Some(spec_builder_event(seq![empty_frame()], tree_events(e, o)[0])), tree_events(e, o).subrange(1, m))
            == Some(build_events(seq![empty_frame()], tree_events(e, o).take(m))),
    decreases m,
{
    let f0 = seq![empty_frame()];
    let evs = tree_events(e, o);
    let b1 = Some(spec_builder_event(f0, evs[0]));
    if m == 1 {
        assert(evs.subrange(1, 1) =~= Seq::<SpecEvent>::empty());
        assert(evs.take(1) =~= seq![evs[0]]);
        lemma_build_one(f0, evs[0]);
    } else {
        lemma_midlevel_prefix(e, o, m - 1);
        lemma_tree_no_resync(e, o);
        let x = evs[m - 1];
        assert(!(x is Resync));
        let g = build_events(f0, evs.take(m - 1));
        lemma_midlevel_run_push(b1, evs.subrange(1, m - 1), x);
        assert(evs.subrange(1, m - 1).push(x) =~= evs.subrange(1, m));
        assert(evs.take(m) =~= evs.take(m - 1) + seq![x]);
        lemma_build_concat(f0, evs.take(m - 1), seq![x]);
        lemma_build_one(g, x);
        lemma_midlevel_no_capture(e, o, m);
    }
}

/// A mid-level parser that has a tree built (its handler answered `Build`
/// at the tree's `Begin`) builds on through the tree's events: after each
/// event before the last, the builder holds what a new builder holds after
/// those events and has built no element whole, so the handler is handed
/// nothing (see `midlevel_hands`). At the tree's `End` the builder has
/// built exactly the tree, which the handler is handed as an `Element`, and
/// nothing is being built after it.
pub proof fn lemma_midlevel_builds_tree(e: SpecElement, o: int)
    requires
        tree_reads_back(e),
    ensures
        ({
            let evs = tree_events(e, o);
            let b1 = Some(spec_builder_event(seq![empty_frame()], evs[0]));
            &&& forall|m: int| 1 <= m < evs.len() ==> {
                &&& #[trigger] midlevel_run(b1, evs.subrange(1, m))
                    == Some(build_events(seq![empty_frame()], evs.take(m)))
                &&& build_events(seq![empty_frame()], evs.take(m))[0].ce.len() == 0
            }
            &&& spec_builder_event(build_events(seq![empty_frame()], evs.take(evs.len() - 1)), evs.last())[0].ce
                == seq![e]
            &&& midlevel_run(b1, evs.subrange(1, evs.len() as int)) is None
        }),
{
    let f0 = seq![empty_frame()];
    let evs = tree_events(e, o);
    let n = evs.len();
    let b1 = Some(spec_builder_event(f0, evs[0]));
    assert forall|m: int| 1 <= m < n implies {
        &&& #[trigger] midlevel_run(b1, evs.subrange(1, m)) == Some(build_events(f0, evs.take(m)))
        &&& build_events(f0, evs.take(m))[0].ce.len() == 0
    } by {
        lemma_midlevel_prefix(e, o, m);
        lemma_midlevel_no_capture(e, o, m);
    }
    lemma_tree_builds(e, o, f0);
    let g = build_events(f0, evs.take(n - 1));
    assert(evs =~= evs.take(n - 1) + seq![evs.last()]);
    lemma_build_concat(f0, evs.take(n - 1), seq![evs.last()]);
    lemma_build_one(g, evs.last());
    assert(Seq::<SpecElement>::empty().push(e) =~= seq![e]);
    assert(spec_builder_event(g, evs.last())[0].ce == seq![e]);
    lemma_midlevel_prefix(e, o, n - 1);
    lemma_midlevel_run_push(b1, evs.subrange(1, n - 1), evs.last());
    assert(evs.subrange(1, n - 1).push(evs.last()) =~= evs.subrange(1, n as int));
}

} // verus!
