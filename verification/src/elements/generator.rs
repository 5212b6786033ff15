//! The element tree to bytes.

use vstd::prelude::*;
use std::rc::Rc;
use vstd::utf8::encode_utf8;
use crate::numbers::{pow256, be_value, lemma_pow256_mono, lemma_be_value_bound};
use super::parser::parse_ebml_number::{
    Mode, Result, spec_ebml_result, spec_ebml_consumed, ebml_width, ebml_marker, ebml_first_bits,
    ebml_value_bytes, ebml_is_nan, lemma_be_value_prepend,
};
use super::parser::decode::{spec_decode, spec_signed_value, be_after};
use super::parser::SpecContent;
use super::Type;
use vstd::arithmetic::div_mod::{lemma_mod_breakdown, lemma_small_mod, lemma_div_denominator};
use super::{Element, ElementContent, FloatBits, SpecElement, SpecElementContent, children_view, element_view, lemma_children_view};
use super::database::{Class, class_to_id, spec_class_to_id, spec_id_to_class};

verus! {

/// How an EBML number is written.
#[derive(Debug, Eq, PartialEq, Clone, Copy, Structural)]
pub enum EbmlNumberMode {
    /// An element size: a width marker is added.
    Unsigned,
    /// An element ID: written as is, its marker is part of it.
    Identifier,
}

/// Byte `k` from the right (0 is the lowest) of `x`.
pub open spec fn byte_of(x: nat, k: nat) -> u8 {
    ((x / pow256(k)) % 256) as u8
}

/// The lowest `n` bytes of `x`, big-endian.
pub open spec fn be_bytes(x: nat, n: nat) -> Seq<u8>
    decreases n,
{
    if n == 0 {
        Seq::empty()
    } else {
        seq![byte_of(x, (n - 1) as nat)] + be_bytes(x, (n - 1) as nat)
    }
}

/// The fewest bytes (at least one) that hold `x`.
pub open spec fn unsigned_width(x: u64) -> nat {
    if x < 0x100 {
        1
    } else if x < 0x10000 {
        2
    } else if x < 0x1000000 {
        3
    } else if x < 0x100000000 {
        4
    } else if x < 0x10000000000 {
        5
    } else if x < 0x1000000000000 {
        6
    } else if x < 0x100000000000000 {
        7
    } else {
        8
    }
}

/// The fewest bytes (at least one) that hold `x` in two's complement.
pub open spec fn signed_width(x: i64) -> nat {
    if -0x80 <= x < 0x80 {
        1
    } else if -0x8000 <= x < 0x8000 {
        2
    } else if -0x800000 <= x < 0x800000 {
        3
    } else if -0x80000000 <= x < 0x80000000 {
        4
    } else if -0x8000000000 <= x < 0x8000000000 {
        5
    } else if -0x800000000000 <= x < 0x800000000000 {
        6
    } else if -0x80000000000000 <= x < 0x80000000000000 {
        7
    } else {
        8
    }
}

/// The bytes that `generate_big_endian_number` writes.
pub open spec fn spec_big_endian_number(x: u64) -> Seq<u8> {
    be_bytes(x as nat, unsigned_width(x))
}

/// The bytes that `generate_big_endian_number_s` writes: the lowest
/// bytes of the two's complement of `x`.
pub open spec fn spec_big_endian_number_s(x: i64) -> Seq<u8> {
    be_bytes((x as u64) as nat, signed_width(x))
}

/// The width of the size field written for `x`, and its marker bit.
pub open spec fn size_width(x: u64) -> (nat, u8) {
    if x < 0x7F {
        (1, 0x80)
    } else if x < 0x3FFF {
        (2, 0x40)
    } else if x < 0x1FFFFF {
        (3, 0x20)
    } else if x < 0xFFFFFFF {
        (4, 0x10)
    } else if x < 0x7FFFFFFFF {
        (5, 0x08)
    } else if x < 0x3FFFFFFFFFF {
        (6, 0x04)
    } else if x < 0x1FFFFFFFFFFFF {
        (7, 0x02)
    } else {
        (8, 0x01)
    }
}

/// The bytes that `generate_ebml_number` writes.
pub open spec fn spec_ebml_number_bytes(x: u64, mode: EbmlNumberMode) -> Seq<u8> {
    match mode {
        EbmlNumberMode::Identifier => spec_big_endian_number(x),
        EbmlNumberMode::Unsigned => if x == 0xFFFFFFFFFFFFFFFF {
            seq![0xFFu8]
        } else {
            let (n, bit) = size_width(x);
            seq![bit | byte_of(x as nat, (n - 1) as nat)] + be_bytes(x as nat, (n - 1) as nat)
        },
    }
}

/// `be_bytes` holds `n` bytes.
pub proof fn lemma_be_bytes_len(x: nat, n: nat)
    ensures
        be_bytes(x, n).len() == n,
    decreases n,
{
    if n > 0 {
        lemma_be_bytes_len(x, (n - 1) as nat);
    }
}

/// Byte `k` of `x` (for `k < 8`), by a shift and a mask.
fn byte_at(x: u64, k: u64) -> (b: u8)
    requires
        k < 8,
    ensures
        b == byte_of(x as nat, k as nat),
{
    proof {
        reveal_with_fuel(pow256, 8);
    }
    let sh = k * 8;
    let v = (x >> sh) & 0xFF;
    proof {
        if k == 0 {
            assert(v == (x / 1) % 256) by (bit_vector)
                requires
                    sh == 0,
                    v == (x >> sh) & 0xFF;
            assert(pow256(0) == 1);
        } else if k == 1 {
            assert(v == (x / 0x100) % 256) by (bit_vector)
                requires
                    sh == 8,
                    v == (x >> sh) & 0xFF;
            assert(pow256(1) == 0x100);
        } else if k == 2 {
            assert(v == (x / 0x10000) % 256) by (bit_vector)
                requires
                    sh == 16,
                    v == (x >> sh) & 0xFF;
            assert(pow256(2) == 0x10000);
        } else if k == 3 {
            assert(v == (x / 0x1000000) % 256) by (bit_vector)
                requires
                    sh == 24,
                    v == (x >> sh) & 0xFF;
            assert(pow256(3) == 0x1000000);
        } else if k == 4 {
            assert(v == (x / 0x100000000) % 256) by (bit_vector)
                requires
                    sh == 32,
                    v == (x >> sh) & 0xFF;
            assert(pow256(4) == 0x100000000);
        } else if k == 5 {
            assert(v == (x / 0x10000000000) % 256) by (bit_vector)
                requires
                    sh == 40,
                    v == (x >> sh) & 0xFF;
            assert(pow256(5) == 0x10000000000);
        } else if k == 6 {
            assert(v == (x / 0x1000000000000) % 256) by (bit_vector)
                requires
                    sh == 48,
                    v == (x >> sh) & 0xFF;
            assert(pow256(6) == 0x1000000000000);
        } else {
            assert(v == (x / 0x100000000000000) % 256) by (bit_vector)
                requires
                    sh == 56,
                    v == (x >> sh) & 0xFF;
            assert(pow256(7) == 0x100000000000000);
        }
    }
    let b = v as u8;
    b
}

/// Appends the lowest `numbytes` bytes of `x`, big-endian.
fn push_be_bytes(r: &mut Vec<u8>, x: u64, numbytes: u64)
    requires
        numbytes <= 8,
    ensures
        final(r)@ == old(r)@ + be_bytes(x as nat, numbytes as nat),
{
    let ghost r0 = r@;
    let mut i: u64 = 0;
    proof {
        lemma_be_bytes_len(x as nat, numbytes as nat);
    }
    while i < numbytes
        invariant
            numbytes <= 8,
            i <= numbytes,
            r@ + be_bytes(x as nat, (numbytes - i) as nat) == r0 + be_bytes(x as nat, numbytes as nat),
        decreases numbytes - i,
    {
        let b = byte_at(x, numbytes - i - 1);
        let ghost before = r@;
        r.push(b);
        assert(before + be_bytes(x as nat, (numbytes - i) as nat)
            =~= r@ + be_bytes(x as nat, (numbytes - i - 1) as nat));
        i = i + 1;
    }
    assert(r@ + be_bytes(x as nat, 0) =~= r@);
}

/// `x` in the fewest big-endian bytes (at least one).
pub fn generate_big_endian_number(x: u64) -> (r: Vec<u8>)
    ensures
        r@ == spec_big_endian_number(x),
{
    let mut r = Vec::new();
    let numbytes: u64 = if x < 0x100 {
        1
    } else if x < 0x10000 {
        2
    } else if x < 0x1000000 {
        3
    } else if x < 0x100000000 {
        4
    } else if x < 0x10000000000 {
        5
    } else if x < 0x1000000000000 {
        6
    } else if x < 0x100000000000000 {
        7
    } else {
        8
    };
    push_be_bytes(&mut r, x, numbytes);
    assert(r@ =~= spec_big_endian_number(x));
    r
}

/// `x` in the fewest big-endian two's complement bytes (at least one).
pub fn generate_big_endian_number_s(x: i64) -> (r: Vec<u8>)
    ensures
        r@ == spec_big_endian_number_s(x),
{
    let mut r = Vec::new();
    let numbytes: u64 = if -0x80 <= x && x < 0x80 {
        1
    } else if -0x8000 <= x && x < 0x8000 {
        2
    } else if -0x800000 <= x && x < 0x800000 {
        3
    } else if -0x80000000 <= x && x < 0x80000000 {
        4
    } else if -0x8000000000 <= x && x < 0x8000000000 {
        5
    } else if -0x800000000000 <= x && x < 0x800000000000 {
        6
    } else if -0x80000000000000 <= x && x < 0x80000000000000 {
        7
    } else {
        8
    };
    push_be_bytes(&mut r, x as u64, numbytes);
    assert(r@ =~= spec_big_endian_number_s(x));
    r
}

/// An EBML number: an ID as is, or a size with its width marker
/// (all ones, the "unknown" size, for `u64::MAX`).
pub fn generate_ebml_number(x: u64, inputmode: EbmlNumberMode) -> (r: Vec<u8>)
    ensures
        r@ == spec_ebml_number_bytes(x, inputmode),
{
    match inputmode {
        EbmlNumberMode::Identifier => generate_big_endian_number(x),
        EbmlNumberMode::Unsigned => {
            let mut r = Vec::new();
            if x == 0xFFFFFFFFFFFFFFFF {
                r.push(0xFF);
                assert(r@ =~= seq![0xFFu8]);
                return r;
            }
            let (numbytes, bit): (u64, u8) = if x < 0x100 - 0x81 {
                (1, 0x80)
            } else if x < 0x10000 - 0xC001 {
                (2, 0x40)
            } else if x < 0x1000000 - 0xE00001 {
                (3, 0x20)
            } else if x < 0x100000000 - 0xF0000001 {
                (4, 0x10)
            } else if x < 0x10000000000 - 0xF800000001 {
                (5, 0x08)
            } else if x < 0x1000000000000 - 0xFC0000000001 {
                (6, 0x04)
            } else if x < 0x100000000000000 - 0xFE000000000001 {
                (7, 0x02)
            } else {
                (8, 0x01)
            };
            r.push(bit | byte_at(x, numbytes - 1));
            push_be_bytes(&mut r, x, numbytes - 1);
            assert(r@ =~= spec_ebml_number_bytes(x, inputmode));
            r
        },
    }
}

/// The payload bytes of an element: its number, text or bytes, or the
/// elements it holds, one after another. A float is written in single
/// precision, as four bytes. (A double-precision float would first have to
/// be rounded to single precision, which is floating-point arithmetic: such
/// a float is not `generatable`, and its eight bytes here are never written.)
pub open spec fn spec_payload(e: SpecElement) -> Seq<u8>
    decreases e, 0nat,
{
    match e.content {
        SpecElementContent::Master(v) => spec_children(v),
        SpecElementContent::Unsigned(x) => spec_big_endian_number(x),
        SpecElementContent::Signed(x) => spec_big_endian_number_s(x),
        SpecElementContent::Binary(b) => b,
        SpecElementContent::Text(t) => encode_utf8(t),
        SpecElementContent::Float(FloatBits::Single(b)) => be_bytes(b as nat, 4),
        SpecElementContent::Float(FloatBits::Double(b)) => be_bytes(b as nat, 8),
        SpecElementContent::MatroskaDate(x) => spec_big_endian_number_s(x),
        SpecElementContent::Unknown(_, b) => b,
    }
}

/// The bytes of elements, one after another.
pub open spec fn spec_children(v: Seq<SpecElement>) -> Seq<u8>
    decreases v, 2nat,
{
    if v.len() == 0 {
        Seq::empty()
    } else {
        spec_children(v.drop_last()) + spec_generate(v.last())
    }
}

/// The ID written for an element.
pub open spec fn spec_element_id(e: SpecElement) -> u64 {
    match e.content {
        SpecElementContent::Unknown(id, _) => id,
        _ => spec_class_to_id(e.class),
    }
}

/// The bytes of an element: ID, size, payload.
pub open spec fn spec_generate(e: SpecElement) -> Seq<u8>
    decreases e, 1nat,
{
    let data = spec_payload(e);
    spec_ebml_number_bytes(spec_element_id(e), EbmlNumberMode::Identifier)
        + spec_ebml_number_bytes(data.len() as u64, EbmlNumberMode::Unsigned) + data
}

/// Every element of the tree has an ID (its class is known, or it holds
/// the ID of an unknown element), and every float in it is of single
/// precision (the caller rounds a double to single precision first).
pub open spec fn generatable(e: SpecElement) -> bool
    decreases e,
{
    &&& (e.content is Unknown || e.class != Class::Unknown)
    &&& !(e.content matches SpecElementContent::Float(FloatBits::Double(_)))
    &&& (e.content matches SpecElementContent::Master(v) ==> all_generatable(v))
}

/// Every element of the sequence can be generated.
pub open spec fn all_generatable(v: Seq<SpecElement>) -> bool
    decreases v,
{
    v.len() == 0 || (all_generatable(v.drop_last()) && generatable(v.last()))
}

/// The bytes of an element and, in turn, of the elements it holds.
pub fn generate(x: &Element) -> (r: Vec<u8>)
    requires
        generatable(x@),
    ensures
        r@ == spec_generate(x@),
    decreases x,
{
    let mut r = Vec::new();
    let id = match &x.content {
        ElementContent::Unknown(id_, _) => *id_,
        _ => class_to_id(x.class),
    };
    let mut data: Vec<u8> = match &x.content {
        ElementContent::Binary(b) => vstd::slice::slice_to_vec(b.as_slice()),
        ElementContent::Unsigned(v) => generate_big_endian_number(*v),
        ElementContent::Signed(v) => generate_big_endian_number_s(*v),
        ElementContent::Float(FloatBits::Single(b)) => {
            let mut vv = Vec::new();
            push_be_bytes(&mut vv, *b as u64, 4);
            vv
        },
        ElementContent::Float(FloatBits::Double(_)) => vstd::pervasive::unreached(),
        ElementContent::Text(t) => vstd::slice::slice_to_vec(t.as_str().as_bytes()),
        ElementContent::Master(v) => {
            let mut vv = Vec::new();
            let mut i: usize = 0;
            assert(v@.subrange(0, 0) =~= Seq::<Rc<Element>>::empty());
            proof {
                lemma_children_view(v@);
            }
            while i < v.len()
                invariant
                    i <= v@.len(),
                    *x == (Element { class: x.class, content: ElementContent::Master(*v) }),
                    all_generatable(children_view(v@)),
                    children_view(v@).len() == v@.len(),
                    forall|j: int| 0 <= j < v@.len() ==> #[trigger] children_view(v@)[j] == element_view(*v@[j]),
                    vv@ == spec_children(children_view(v@.subrange(0, i as int))),
                decreases v.len() - i,
            {
                proof {
                    lemma_all_generatable_index(children_view(v@), i as int);
                    assert(v@.subrange(0, i + 1).drop_last() =~= v@.subrange(0, i as int));
                    assert(children_view(v@.subrange(0, i + 1)).drop_last()
                        =~= children_view(v@.subrange(0, i as int)));
                }
                assert(decreases_to!(*x => x.content));
                assert(decreases_to!(x.content => x.content->Master_0));
                assert(x.content->Master_0 == *v);
                assert(decreases_to!(*v => v@));
                assert(decreases_to!(v@ => v@[i as int]));
                let mut g = generate(&v[i]);
                vv.append(&mut g);
                i = i + 1;
            }
            assert(v@.subrange(0, i as int) =~= v@);
            vv
        },
        ElementContent::MatroskaDate(v) => generate_big_endian_number_s(*v),
        ElementContent::Unknown(_, b) => vstd::slice::slice_to_vec(b.as_slice()),
    };
    r.append(&mut generate_ebml_number(id, EbmlNumberMode::Identifier));
    r.append(&mut generate_ebml_number(data.len() as u64, EbmlNumberMode::Unsigned));
    r.append(&mut data);
    r
}

/// Whether every element of the tree has an ID (see `generatable`).
pub fn is_generatable(x: &Element) -> (r: bool)
    ensures
        r == generatable(x@),
    decreases x,
{
    let ok = match &x.content {
        ElementContent::Unknown(_, _) => true,
        ElementContent::Float(FloatBits::Double(_)) => false,
        _ => x.class != Class::Unknown,
    };
    if !ok {
        return false;
    }
    match &x.content {
        ElementContent::Master(v) => {
            let mut i: usize = 0;
            assert(v@.subrange(0, 0) =~= Seq::<Rc<Element>>::empty());
            proof {
                lemma_children_view(v@);
            }
            while i < v.len()
                invariant
                    i <= v@.len(),
                    *x == (Element { class: x.class, content: ElementContent::Master(*v) }),
                    children_view(v@).len() == v@.len(),
                    forall|j: int| 0 <= j < v@.len() ==> #[trigger] children_view(v@)[j] == element_view(*v@[j]),
                    all_generatable(children_view(v@.subrange(0, i as int))),
                decreases v.len() - i,
            {
                assert(decreases_to!(*x => x.content));
                assert(decreases_to!(x.content => x.content->Master_0));
                assert(x.content->Master_0 == *v);
                assert(decreases_to!(*v => v@));
                assert(decreases_to!(v@ => v@[i as int]));
                proof {
                    assert(v@.subrange(0, i + 1).drop_last() =~= v@.subrange(0, i as int));
                    lemma_children_view(v@.subrange(0, i + 1));
                    assert(children_view(v@.subrange(0, i + 1)) =~= children_view(v@).subrange(0, i + 1));
                    assert(children_view(v@.subrange(0, i as int)) =~= children_view(v@).subrange(0, i as int));
                }
                if !is_generatable(&v[i]) {
                    proof {
                        if all_generatable(children_view(v@)) {
                            lemma_all_generatable_index(children_view(v@), i as int);
                        }
                    }
                    return false;
                }
                proof {
                    let w = children_view(v@).subrange(0, i + 1);
                    assert(w.drop_last() =~= children_view(v@).subrange(0, i as int));
                    assert(w.last() == element_view(*v@[i as int]));
                    assert(all_generatable(w));
                }
                i = i + 1;
            }
            assert(v@.subrange(0, i as int) =~= v@);
            true
        },
        _ => true,
    }
}

/// A sequence each of whose elements is generatable is generatable.
pub proof fn lemma_all_generatable_of_each(v: Seq<SpecElement>)
    requires
        forall|i: int| 0 <= i < v.len() ==> generatable(#[trigger] v[i]),
    ensures
        all_generatable(v),
    decreases v.len(),
{
    if v.len() > 0 {
        assert forall|i: int| 0 <= i < v.drop_last().len() implies generatable(#[trigger] v.drop_last()[i]) by {
            assert(v.drop_last()[i] == v[i]);
        }
        lemma_all_generatable_of_each(v.drop_last());
    }
}

/// Each element of a generatable sequence is generatable.
proof fn lemma_all_generatable_index(v: Seq<SpecElement>, i: int)
    requires
        all_generatable(v),
        0 <= i < v.len(),
    ensures
        generatable(v[i]),
    decreases v.len(),
{
    if i < v.len() - 1 {
        lemma_all_generatable_index(v.drop_last(), i);
    }
}

/// The lowest `n` bytes of `x`, read back, are `x` modulo `256^n`.
pub proof fn lemma_be_bytes_value(x: nat, n: nat)
    ensures
        be_value(be_bytes(x, n)) == x % pow256(n),
        be_bytes(x, n).len() == n,
    decreases n,
{
    lemma_be_bytes_len(x, n);
    if n == 0 {
        assert(be_value(Seq::<u8>::empty()) == 0);
        assert(x % 1 == 0) by (nonlinear_arith);
    } else {
        let p = pow256((n - 1) as nat);
        lemma_be_bytes_value(x, (n - 1) as nat);
        lemma_be_value_prepend(byte_of(x, (n - 1) as nat), be_bytes(x, (n - 1) as nat));
        lemma_pow256_mono(0, (n - 1) as nat);
        lemma_mod_breakdown(x as int, p as int, 256);
        assert(pow256(n) == 256 * p);
        assert(p * 256 == 256 * p) by (nonlinear_arith);
        assert(0 <= (x / p) % 256 < 256) by (nonlinear_arith) requires p > 0;
        assert(byte_of(x, (n - 1) as nat) == (x / p) % 256);
        let b = byte_of(x, (n - 1) as nat);
        assert(b * p == p * ((x / p) % 256)) by (nonlinear_arith)
            requires
                b == (x / p) % 256;
    }
}

/// A number written with `generate_big_endian_number` reads back as itself.
pub proof fn lemma_big_endian_number_value(x: u64)
    ensures
        be_value(spec_big_endian_number(x)) == x,
        spec_big_endian_number(x).len() == unsigned_width(x),
        1 <= unsigned_width(x) <= 8,
{
    let n = unsigned_width(x);
    lemma_be_bytes_value(x as nat, n);
    reveal_with_fuel(pow256, 9);
    lemma_small_mod(x as nat, pow256(n));
}

/// A number written by `generate_big_endian_number` is decoded back by
/// the parser as an unsigned payload.
pub proof fn lemma_unsigned_payload_roundtrip(x: u64)
    ensures
        spec_decode(spec_big_endian_number(x), Type::Unsigned) == Some(SpecContent::Unsigned(x)),
{
    lemma_big_endian_number_value(x);
}

/// `be_after(q, s)` is `q` shifted past the bytes `s`, plus their value.
pub proof fn lemma_be_after(q: int, s: Seq<u8>)
    ensures
        be_after(q, s) == q * pow256(s.len()) + be_value(s),
    decreases s.len(),
{
    if s.len() == 0 {
        assert(q * 1 == q);
    } else {
        let init = s.drop_last();
        lemma_be_after(q, init);
        let p = pow256(init.len());
        assert(pow256(s.len()) == 256 * p);
        assert((q * p + be_value(init)) * 256 + s.last() == q * (256 * p) + (be_value(init) * 256 + s.last()))
            by (nonlinear_arith);
    }
}

/// A non-negative number written by `generate_big_endian_number_s` is
/// decoded back by the parser as a signed payload. (A negative one is not:
/// the parser reads a first byte from 0x80 up as counting down from zero,
/// so the bytes written for -1, `FF`, read back as -127.)
pub proof fn lemma_signed_payload_roundtrip(x: i64)
    requires
        x >= 0,
    ensures
        spec_decode(spec_big_endian_number_s(x), Type::Signed) == Some(SpecContent::Signed(x)),
        spec_decode(spec_big_endian_number_s(x), Type::Date) == Some(SpecContent::MatroskaDate(x)),
{
    let n = signed_width(x);
    let b = spec_big_endian_number_s(x);
    lemma_be_bytes_value(x as nat, n);
    reveal_with_fuel(pow256, 9);
    lemma_small_mod(x as nat, pow256(n));
    let first = byte_of(x as nat, (n - 1) as nat);
    let rest = be_bytes(x as nat, (n - 1) as nat);
    assert(b == seq![first] + rest);
    assert(b[0] == first);
    assert(b.subrange(1, b.len() as int) =~= rest);
    lemma_be_after(first as int, rest);
    lemma_be_value_prepend(first, rest);
    lemma_be_value_bound(rest);
    // the first byte is below 0x80, so it leads with its own value
    let p = pow256((n - 1) as nat);
    assert(x < 0x80 * p);
    assert(first < 0x80) by (nonlinear_arith)
        requires
            first * p + be_value(rest) == x,
            x < 0x80 * p,
            0 <= be_value(rest),
            p > 0;
}

/// Bytes that are all `0xFF` hold the largest value of their length.
proof fn lemma_be_value_all_ones(s: Seq<u8>)
    requires
        forall|i: int| 0 <= i < s.len() ==> s[i] == 0xFF,
    ensures
        be_value(s) == pow256(s.len()) - 1,
    decreases s.len(),
{
    if s.len() > 0 {
        lemma_be_value_all_ones(s.drop_last());
    }
}

/// The size field of one width reads back as the size written.
proof fn lemma_size_field(x: u64, n: nat, bit: u8, p: nat)
    requires
        1 <= n <= 8,
        size_width(x) == (n, bit),
        p == pow256((n - 1) as nat),
        ebml_width(bit) == n,
        ebml_marker(bit) == bit,
        bit >= 1,
        x + 1 < bit * p,
        x < 0xFFFFFFFFFFFFFF,
        forall|h: u8| h < bit ==> #[trigger] (bit | h) == bit + h,
        forall|h: u8| h < bit ==> #[trigger] ebml_width((bit + h) as u8) == n && ebml_marker((bit + h) as u8) == bit,
    ensures
        spec_ebml_result(spec_ebml_number_bytes(x, EbmlNumberMode::Unsigned), Mode::Unsigned) == Result::Number(x),
        spec_ebml_consumed(spec_ebml_number_bytes(x, EbmlNumberMode::Unsigned), Mode::Unsigned) == n,
        spec_ebml_number_bytes(x, EbmlNumberMode::Unsigned).len() == n,
{
    let bytes = spec_ebml_number_bytes(x, EbmlNumberMode::Unsigned);
    let xn = x as nat;
    let hi = byte_of(x as nat, (n - 1) as nat);
    let rest = be_bytes(x as nat, (n - 1) as nat);
    lemma_be_bytes_value(x as nat, n);
    lemma_be_bytes_value(x as nat, (n - 1) as nat);
    lemma_pow256_mono(0, (n - 1) as nat);
    assert(xn / p < bit) by (nonlinear_arith)
        requires
            xn + 1 < bit * p,
            p > 0;
    assert(hi == xn / p) by {
        lemma_small_mod(xn / p, 256);
    }
    let first = (bit + hi) as u8;
    assert(hi < bit);
    assert((bit | hi) == bit + hi);
    assert(first == (bit | hi));
    assert(x != 0xFFFFFFFFFFFFFFFFu64);
    assert(bytes =~= seq![first] + rest);
    assert(bytes[0] == first);
    assert(ebml_first_bits(first) == hi);
    assert(bytes.subrange(1, n as int) =~= rest);
    assert(ebml_value_bytes(bytes, Mode::Unsigned) =~= seq![hi] + rest);
    lemma_be_value_prepend(hi, rest);
    // hi·p + (x mod p) is x
    assert(hi * p + xn % p == xn) by (nonlinear_arith)
        requires
            hi == xn / p,
            p > 0;
    if ebml_is_nan(bytes) {
        assert forall|i: int| 0 <= i < rest.len() implies rest[i] == 0xFF by {
            assert(rest[i] == bytes[i + 1]);
        }
        lemma_be_value_all_ones(rest);
        assert(hi == bit - 1);
        assert(false) by (nonlinear_arith)
            requires
                hi * p + (p - 1) == xn,
                hi == bit - 1,
                xn + 1 < bit * p;
    }
}

/// A size written by `generate_ebml_number` is read back by
/// `parse_ebml_number` as itself, from all the bytes written. The sizes
/// from `2^56 - 1` up do not fit the eight-byte form (`u64::MAX` is written
/// as the "unknown" size and reads back as `NaN`), so they are left out.
pub proof fn lemma_size_roundtrip(x: u64)
    requires
        x < 0xFFFFFFFFFFFFFF,
    ensures
        spec_ebml_result(spec_ebml_number_bytes(x, EbmlNumberMode::Unsigned), Mode::Unsigned) == Result::Number(x),
        spec_ebml_consumed(spec_ebml_number_bytes(x, EbmlNumberMode::Unsigned), Mode::Unsigned)
            == spec_ebml_number_bytes(x, EbmlNumberMode::Unsigned).len(),
{
    reveal_with_fuel(pow256, 9);
    let (n, bit) = size_width(x);
    if n == 1 {
        assert forall|h: u8| h < 0x80 implies #[trigger] (0x80u8 | h) == 0x80u8 + h by {
            assert(h < 0x80 ==> 0x80u8 | h == 0x80u8 + h) by (bit_vector);
        }
        lemma_size_field(x, 1, 0x80, 1);
    } else if n == 2 {
        assert forall|h: u8| h < 0x40 implies #[trigger] (0x40u8 | h) == 0x40u8 + h by {
            assert(h < 0x40 ==> 0x40u8 | h == 0x40u8 + h) by (bit_vector);
        }
        lemma_size_field(x, 2, 0x40, 0x100);
    } else if n == 3 {
        assert forall|h: u8| h < 0x20 implies #[trigger] (0x20u8 | h) == 0x20u8 + h by {
            assert(h < 0x20 ==> 0x20u8 | h == 0x20u8 + h) by (bit_vector);
        }
        lemma_size_field(x, 3, 0x20, 0x10000);
    } else if n == 4 {
        assert forall|h: u8| h < 0x10 implies #[trigger] (0x10u8 | h) == 0x10u8 + h by {
            assert(h < 0x10 ==> 0x10u8 | h == 0x10u8 + h) by (bit_vector);
        }
        lemma_size_field(x, 4, 0x10, 0x1000000);
    } else if n == 5 {
        assert forall|h: u8| h < 0x08 implies #[trigger] (0x08u8 | h) == 0x08u8 + h by {
            assert(h < 0x08 ==> 0x08u8 | h == 0x08u8 + h) by (bit_vector);
        }
        lemma_size_field(x, 5, 0x08, 0x100000000);
    } else if n == 6 {
        assert forall|h: u8| h < 0x04 implies #[trigger] (0x04u8 | h) == 0x04u8 + h by {
            assert(h < 0x04 ==> 0x04u8 | h == 0x04u8 + h) by (bit_vector);
        }
        lemma_size_field(x, 6, 0x04, 0x10000000000);
    } else if n == 7 {
        assert forall|h: u8| h < 0x02 implies #[trigger] (0x02u8 | h) == 0x02u8 + h by {
            assert(h < 0x02 ==> 0x02u8 | h == 0x02u8 + h) by (bit_vector);
        }
        lemma_size_field(x, 7, 0x02, 0x1000000000000);
    } else {
        assert forall|h: u8| h < 0x01 implies #[trigger] (0x01u8 | h) == 0x01u8 + h by {
            assert(h < 0x01 ==> 0x01u8 | h == 0x01u8 + h) by (bit_vector);
        }
        lemma_size_field(x, 8, 0x01, 0x100000000000000);
    }
}

/// The "unknown" size is written as the one byte `FF`, which reads back as `NaN`.
pub proof fn lemma_unknown_size_roundtrip()
    ensures
        spec_ebml_result(spec_ebml_number_bytes(0xFFFFFFFFFFFFFFFF, EbmlNumberMode::Unsigned), Mode::Unsigned)
            == Result::NaN,
{
}

/// An ID written by `generate_ebml_number` reads back as itself when its
/// first byte's marker gives the width it was written in and its value
/// bits are not all ones.
proof fn lemma_id_field(id: u64, n: nat, first: u8, p: nat, m: nat)
    requires
        n == unsigned_width(id),
        p == pow256((n - 1) as nat),
        first == id as nat / p,
        ebml_width(first) == n,
        m == ebml_marker(first),
        id + 1 != 2 * m * p,
    ensures
        spec_ebml_result(spec_ebml_number_bytes(id, EbmlNumberMode::Identifier), Mode::Identifier)
            == Result::Number(id),
        spec_ebml_consumed(spec_ebml_number_bytes(id, EbmlNumberMode::Identifier), Mode::Identifier)
            == spec_ebml_number_bytes(id, EbmlNumberMode::Identifier).len(),
{
    let bytes = spec_big_endian_number(id);
    lemma_big_endian_number_value(id);
    reveal_with_fuel(pow256, 9);
    assert(id as nat / p < 256) by (nonlinear_arith)
        requires
            id < 256 * p,
            p > 0;
    lemma_small_mod(id as nat / p, 256);
    assert(first == byte_of(id as nat, (n - 1) as nat));
    let rest = be_bytes(id as nat, (n - 1) as nat);
    lemma_be_bytes_len(id as nat, (n - 1) as nat);
    assert(bytes == seq![first] + rest);
    assert(bytes[0] == first);
    assert(bytes.subrange(1, n as int) =~= rest);
    assert(ebml_value_bytes(bytes, Mode::Identifier) =~= bytes);
    if ebml_is_nan(bytes) {
        assert forall|i: int| 0 <= i < rest.len() implies rest[i] == 0xFF by {
            assert(rest[i] == bytes[i + 1]);
        }
        lemma_be_value_all_ones(rest);
        lemma_be_value_prepend(first, rest);
        assert(first == 2 * m - 1);
        assert(false) by (nonlinear_arith)
            requires
                first * p + (p - 1) == id,
                first == 2 * m - 1,
                id + 1 != 2 * m * p;
    }
}

/// The ID of every known class, written by `generate_ebml_number`, reads
/// back as itself and names the class again.
pub proof fn lemma_class_id_roundtrip(c: Class)
    requires
        c != Class::Unknown,
    ensures
        spec_ebml_result(spec_ebml_number_bytes(spec_class_to_id(c), EbmlNumberMode::Identifier), Mode::Identifier)
            == Result::Number(spec_class_to_id(c)),
        spec_ebml_consumed(spec_ebml_number_bytes(spec_class_to_id(c), EbmlNumberMode::Identifier), Mode::Identifier)
            == spec_ebml_number_bytes(spec_class_to_id(c), EbmlNumberMode::Identifier).len(),
        spec_id_to_class(spec_class_to_id(c)) == c,
{
    reveal_with_fuel(pow256, 9);
    match c {
        Class::EBML => lemma_id_field(0x1A45DFA3, 4, 0x1a, 0x1000000, 0x10),
        Class::EBMLVersion => lemma_id_field(0x00004286, 2, 0x42, 0x100, 0x40),
        Class::EBMLReadVersion => lemma_id_field(0x000042F7, 2, 0x42, 0x100, 0x40),
        Class::EBMLMaxIDLength => lemma_id_field(0x000042F2, 2, 0x42, 0x100, 0x40),
        Class::EBMLMaxSizeLength => lemma_id_field(0x000042F3, 2, 0x42, 0x100, 0x40),
        Class::DocType => lemma_id_field(0x00004282, 2, 0x42, 0x100, 0x40),
        Class::DocTypeVersion => lemma_id_field(0x00004287, 2, 0x42, 0x100, 0x40),
        Class::DocTypeReadVersion => lemma_id_field(0x00004285, 2, 0x42, 0x100, 0x40),
        Class::Void => lemma_id_field(0x000000EC, 1, 0xec, 0x1, 0x80),
        Class::CRC32 => lemma_id_field(0x000000BF, 1, 0xbf, 0x1, 0x80),
        Class::SignatureSlot => lemma_id_field(0x1B538667, 4, 0x1b, 0x1000000, 0x10),
        Class::SignatureAlgo => lemma_id_field(0x00007E8A, 2, 0x7e, 0x100, 0x40),
        Class::SignatureHash => lemma_id_field(0x00007E9A, 2, 0x7e, 0x100, 0x40),
        Class::SignaturePublicKey => lemma_id_field(0x00007EA5, 2, 0x7e, 0x100, 0x40),
        Class::Signature => lemma_id_field(0x00007EB5, 2, 0x7e, 0x100, 0x40),
        Class::SignatureElements => lemma_id_field(0x00007E5B, 2, 0x7e, 0x100, 0x40),
        Class::SignatureElementList => lemma_id_field(0x00007E7B, 2, 0x7e, 0x100, 0x40),
        Class::SignedElement => lemma_id_field(0x00006532, 2, 0x65, 0x100, 0x40),
        Class::Segment => lemma_id_field(0x18538067, 4, 0x18, 0x1000000, 0x10),
        Class::SeekHead => lemma_id_field(0x114D9B74, 4, 0x11, 0x1000000, 0x10),
        Class::Seek => lemma_id_field(0x00004DBB, 2, 0x4d, 0x100, 0x40),
        Class::SeekID => lemma_id_field(0x000053AB, 2, 0x53, 0x100, 0x40),
        Class::SeekPosition => lemma_id_field(0x000053AC, 2, 0x53, 0x100, 0x40),
        Class::Info => lemma_id_field(0x1549A966, 4, 0x15, 0x1000000, 0x10),
        Class::SegmentUID => lemma_id_field(0x000073A4, 2, 0x73, 0x100, 0x40),
        Class::SegmentFilename => lemma_id_field(0x00007384, 2, 0x73, 0x100, 0x40),
        Class::PrevUID => lemma_id_field(0x003CB923, 3, 0x3c, 0x10000, 0x20),
        Class::PrevFilename => lemma_id_field(0x003C83AB, 3, 0x3c, 0x10000, 0x20),
        Class::NextUID => lemma_id_field(0x003EB923, 3, 0x3e, 0x10000, 0x20),
        Class::NextFilename => lemma_id_field(0x003E83BB, 3, 0x3e, 0x10000, 0x20),
        Class::SegmentFamily => lemma_id_field(0x00004444, 2, 0x44, 0x100, 0x40),
        Class::ChapterTranslate => lemma_id_field(0x00006924, 2, 0x69, 0x100, 0x40),
        Class::ChapterTranslateEditionUID => lemma_id_field(0x000069FC, 2, 0x69, 0x100, 0x40),
        Class::ChapterTranslateCodec => lemma_id_field(0x000069BF, 2, 0x69, 0x100, 0x40),
        Class::ChapterTranslateID => lemma_id_field(0x000069A5, 2, 0x69, 0x100, 0x40),
        Class::TimecodeScale => lemma_id_field(0x002AD7B1, 3, 0x2a, 0x10000, 0x20),
        Class::Duration => lemma_id_field(0x00004489, 2, 0x44, 0x100, 0x40),
        Class::DateUTC => lemma_id_field(0x00004461, 2, 0x44, 0x100, 0x40),
        Class::Title => lemma_id_field(0x00007BA9, 2, 0x7b, 0x100, 0x40),
        Class::MuxingApp => lemma_id_field(0x00004D80, 2, 0x4d, 0x100, 0x40),
        Class::WritingApp => lemma_id_field(0x00005741, 2, 0x57, 0x100, 0x40),
        Class::Cluster => lemma_id_field(0x1F43B675, 4, 0x1f, 0x1000000, 0x10),
        Class::Timecode => lemma_id_field(0x000000E7, 1, 0xe7, 0x1, 0x80),
        Class::SilentTracks => lemma_id_field(0x00005854, 2, 0x58, 0x100, 0x40),
        Class::SilentTrackNumber => lemma_id_field(0x000058D7, 2, 0x58, 0x100, 0x40),
        Class::Position => lemma_id_field(0x000000A7, 1, 0xa7, 0x1, 0x80),
        Class::PrevSize => lemma_id_field(0x000000AB, 1, 0xab, 0x1, 0x80),
        Class::SimpleBlock => lemma_id_field(0x000000A3, 1, 0xa3, 0x1, 0x80),
        Class::BlockGroup => lemma_id_field(0x000000A0, 1, 0xa0, 0x1, 0x80),
        Class::Block => lemma_id_field(0x000000A1, 1, 0xa1, 0x1, 0x80),
        Class::BlockVirtual => lemma_id_field(0x000000A2, 1, 0xa2, 0x1, 0x80),
        Class::BlockAdditions => lemma_id_field(0x000075A1, 2, 0x75, 0x100, 0x40),
        Class::BlockMore => lemma_id_field(0x000000A6, 1, 0xa6, 0x1, 0x80),
        Class::BlockAddID => lemma_id_field(0x000000EE, 1, 0xee, 0x1, 0x80),
        Class::BlockAdditional => lemma_id_field(0x000000A5, 1, 0xa5, 0x1, 0x80),
        Class::BlockDuration => lemma_id_field(0x0000009B, 1, 0x9b, 0x1, 0x80),
        Class::ReferencePriority => lemma_id_field(0x000000FA, 1, 0xfa, 0x1, 0x80),
        Class::ReferenceBlock => lemma_id_field(0x000000FB, 1, 0xfb, 0x1, 0x80),
        Class::ReferenceVirtual => lemma_id_field(0x000000FD, 1, 0xfd, 0x1, 0x80),
        Class::CodecState => lemma_id_field(0x000000A4, 1, 0xa4, 0x1, 0x80),
        Class::Slices => lemma_id_field(0x0000008E, 1, 0x8e, 0x1, 0x80),
        Class::TimeSlice => lemma_id_field(0x000000E8, 1, 0xe8, 0x1, 0x80),
        Class::LaceNumber => lemma_id_field(0x000000CC, 1, 0xcc, 0x1, 0x80),
        Class::FrameNumber => lemma_id_field(0x000000CD, 1, 0xcd, 0x1, 0x80),
        Class::BlockAdditionID => lemma_id_field(0x000000CB, 1, 0xcb, 0x1, 0x80),
        Class::Delay => lemma_id_field(0x000000CE, 1, 0xce, 0x1, 0x80),
        Class::SliceDuration => lemma_id_field(0x000000CF, 1, 0xcf, 0x1, 0x80),
        Class::ReferenceFrame => lemma_id_field(0x000000C8, 1, 0xc8, 0x1, 0x80),
        Class::ReferenceOffset => lemma_id_field(0x000000C9, 1, 0xc9, 0x1, 0x80),
        Class::ReferenceTimeCode => lemma_id_field(0x000000CA, 1, 0xca, 0x1, 0x80),
        Class::EncryptedBlock => lemma_id_field(0x000000AF, 1, 0xaf, 0x1, 0x80),
        Class::Tracks => lemma_id_field(0x1654AE6B, 4, 0x16, 0x1000000, 0x10),
        Class::TrackEntry => lemma_id_field(0x000000AE, 1, 0xae, 0x1, 0x80),
        Class::TrackNumber => lemma_id_field(0x000000D7, 1, 0xd7, 0x1, 0x80),
        Class::TrackUID => lemma_id_field(0x000073C5, 2, 0x73, 0x100, 0x40),
        Class::TrackType => lemma_id_field(0x00000083, 1, 0x83, 0x1, 0x80),
        Class::FlagEnabled => lemma_id_field(0x000000B9, 1, 0xb9, 0x1, 0x80),
        Class::FlagDefault => lemma_id_field(0x00000088, 1, 0x88, 0x1, 0x80),
        Class::FlagForced => lemma_id_field(0x000055AA, 2, 0x55, 0x100, 0x40),
        Class::FlagLacing => lemma_id_field(0x0000009C, 1, 0x9c, 0x1, 0x80),
        Class::MinCache => lemma_id_field(0x00006DE7, 2, 0x6d, 0x100, 0x40),
        Class::MaxCache => lemma_id_field(0x00006DF8, 2, 0x6d, 0x100, 0x40),
        Class::DefaultDuration => lemma_id_field(0x0023E383, 3, 0x23, 0x10000, 0x20),
        Class::TrackTimecodeScale => lemma_id_field(0x0023314F, 3, 0x23, 0x10000, 0x20),
        Class::TrackOffset => lemma_id_field(0x0000537F, 2, 0x53, 0x100, 0x40),
        Class::MaxBlockAdditionID => lemma_id_field(0x000055EE, 2, 0x55, 0x100, 0x40),
        Class::Name => lemma_id_field(0x0000536E, 2, 0x53, 0x100, 0x40),
        Class::Language => lemma_id_field(0x0022B59C, 3, 0x22, 0x10000, 0x20),
        Class::CodecID => lemma_id_field(0x00000086, 1, 0x86, 0x1, 0x80),
        Class::CodecPrivate => lemma_id_field(0x000063A2, 2, 0x63, 0x100, 0x40),
        Class::CodecName => lemma_id_field(0x00258688, 3, 0x25, 0x10000, 0x20),
        Class::AttachmentLink => lemma_id_field(0x00007446, 2, 0x74, 0x100, 0x40),
        Class::CodecSettings => lemma_id_field(0x003A9697, 3, 0x3a, 0x10000, 0x20),
        Class::CodecInfoURL => lemma_id_field(0x003B4040, 3, 0x3b, 0x10000, 0x20),
        Class::CodecDownloadURL => lemma_id_field(0x0026B240, 3, 0x26, 0x10000, 0x20),
        Class::CodecDecodeAll => lemma_id_field(0x000000AA, 1, 0xaa, 0x1, 0x80),
        Class::TrackOverlay => lemma_id_field(0x00006FAB, 2, 0x6f, 0x100, 0x40),
        Class::TrackTranslate => lemma_id_field(0x00006624, 2, 0x66, 0x100, 0x40),
        Class::TrackTranslateEditionUID => lemma_id_field(0x000066FC, 2, 0x66, 0x100, 0x40),
        Class::TrackTranslateCodec => lemma_id_field(0x000066BF, 2, 0x66, 0x100, 0x40),
        Class::TrackTranslateTrackID => lemma_id_field(0x000066A5, 2, 0x66, 0x100, 0x40),
        Class::Video => lemma_id_field(0x000000E0, 1, 0xe0, 0x1, 0x80),
        Class::FlagInterlaced => lemma_id_field(0x0000009A, 1, 0x9a, 0x1, 0x80),
        Class::StereoMode => lemma_id_field(0x000053B8, 2, 0x53, 0x100, 0x40),
        Class::OldStereoMode => lemma_id_field(0x000053B9, 2, 0x53, 0x100, 0x40),
        Class::PixelWidth => lemma_id_field(0x000000B0, 1, 0xb0, 0x1, 0x80),
        Class::PixelHeight => lemma_id_field(0x000000BA, 1, 0xba, 0x1, 0x80),
        Class::PixelCropBottom => lemma_id_field(0x000054AA, 2, 0x54, 0x100, 0x40),
        Class::PixelCropTop => lemma_id_field(0x000054BB, 2, 0x54, 0x100, 0x40),
        Class::PixelCropLeft => lemma_id_field(0x000054CC, 2, 0x54, 0x100, 0x40),
        Class::PixelCropRight => lemma_id_field(0x000054DD, 2, 0x54, 0x100, 0x40),
        Class::DisplayWidth => lemma_id_field(0x000054B0, 2, 0x54, 0x100, 0x40),
        Class::DisplayHeight => lemma_id_field(0x000054BA, 2, 0x54, 0x100, 0x40),
        Class::DisplayUnit => lemma_id_field(0x000054B2, 2, 0x54, 0x100, 0x40),
        Class::AspectRatioType => lemma_id_field(0x000054B3, 2, 0x54, 0x100, 0x40),
        Class::ColourSpace => lemma_id_field(0x002EB524, 3, 0x2e, 0x10000, 0x20),
        Class::GammaValue => lemma_id_field(0x002FB523, 3, 0x2f, 0x10000, 0x20),
        Class::FrameRate => lemma_id_field(0x002383E3, 3, 0x23, 0x10000, 0x20),
        Class::Audio => lemma_id_field(0x000000E1, 1, 0xe1, 0x1, 0x80),
        Class::SamplingFrequency => lemma_id_field(0x000000B5, 1, 0xb5, 0x1, 0x80),
        Class::OutputSamplingFrequency => lemma_id_field(0x000078B5, 2, 0x78, 0x100, 0x40),
        Class::Channels => lemma_id_field(0x0000009F, 1, 0x9f, 0x1, 0x80),
        Class::ChannelPositions => lemma_id_field(0x00007D7B, 2, 0x7d, 0x100, 0x40),
        Class::BitDepth => lemma_id_field(0x00006264, 2, 0x62, 0x100, 0x40),
        Class::TrackOperation => lemma_id_field(0x000000E2, 1, 0xe2, 0x1, 0x80),
        Class::TrackCombinePlanes => lemma_id_field(0x000000E3, 1, 0xe3, 0x1, 0x80),
        Class::TrackPlane => lemma_id_field(0x000000E4, 1, 0xe4, 0x1, 0x80),
        Class::TrackPlaneUID => lemma_id_field(0x000000E5, 1, 0xe5, 0x1, 0x80),
        Class::TrackPlaneType => lemma_id_field(0x000000E6, 1, 0xe6, 0x1, 0x80),
        Class::TrackJoinBlocks => lemma_id_field(0x000000E9, 1, 0xe9, 0x1, 0x80),
        Class::TrackJoinUID => lemma_id_field(0x000000ED, 1, 0xed, 0x1, 0x80),
        Class::TrickTrackUID => lemma_id_field(0x000000C0, 1, 0xc0, 0x1, 0x80),
        Class::TrickTrackSegmentUID => lemma_id_field(0x000000C1, 1, 0xc1, 0x1, 0x80),
        Class::TrickTrackFlag => lemma_id_field(0x000000C6, 1, 0xc6, 0x1, 0x80),
        Class::TrickMasterTrackUID => lemma_id_field(0x000000C7, 1, 0xc7, 0x1, 0x80),
        Class::TrickMasterTrackSegmentUID => lemma_id_field(0x000000C4, 1, 0xc4, 0x1, 0x80),
        Class::ContentEncodings => lemma_id_field(0x00006D80, 2, 0x6d, 0x100, 0x40),
        Class::ContentEncoding => lemma_id_field(0x00006240, 2, 0x62, 0x100, 0x40),
        Class::ContentEncodingOrder => lemma_id_field(0x00005031, 2, 0x50, 0x100, 0x40),
        Class::ContentEncodingScope => lemma_id_field(0x00005032, 2, 0x50, 0x100, 0x40),
        Class::ContentEncodingType => lemma_id_field(0x00005033, 2, 0x50, 0x100, 0x40),
        Class::ContentCompression => lemma_id_field(0x00005034, 2, 0x50, 0x100, 0x40),
        Class::ContentCompAlgo => lemma_id_field(0x00004254, 2, 0x42, 0x100, 0x40),
        Class::ContentCompSettings => lemma_id_field(0x00004255, 2, 0x42, 0x100, 0x40),
        Class::ContentEncryption => lemma_id_field(0x00005035, 2, 0x50, 0x100, 0x40),
        Class::ContentEncAlgo => lemma_id_field(0x000047E1, 2, 0x47, 0x100, 0x40),
        Class::ContentEncKeyID => lemma_id_field(0x000047E2, 2, 0x47, 0x100, 0x40),
        Class::ContentSignature => lemma_id_field(0x000047E3, 2, 0x47, 0x100, 0x40),
        Class::ContentSigKeyID => lemma_id_field(0x000047E4, 2, 0x47, 0x100, 0x40),
        Class::ContentSigAlgo => lemma_id_field(0x000047E5, 2, 0x47, 0x100, 0x40),
        Class::ContentSigHashAlgo => lemma_id_field(0x000047E6, 2, 0x47, 0x100, 0x40),
        Class::Cues => lemma_id_field(0x1C53BB6B, 4, 0x1c, 0x1000000, 0x10),
        Class::CuePoint => lemma_id_field(0x000000BB, 1, 0xbb, 0x1, 0x80),
        Class::CueTime => lemma_id_field(0x000000B3, 1, 0xb3, 0x1, 0x80),
        Class::CueTrackPositions => lemma_id_field(0x000000B7, 1, 0xb7, 0x1, 0x80),
        Class::CueTrack => lemma_id_field(0x000000F7, 1, 0xf7, 0x1, 0x80),
        Class::CueClusterPosition => lemma_id_field(0x000000F1, 1, 0xf1, 0x1, 0x80),
        Class::CueBlockNumber => lemma_id_field(0x00005378, 2, 0x53, 0x100, 0x40),
        Class::CueCodecState => lemma_id_field(0x000000EA, 1, 0xea, 0x1, 0x80),
        Class::CueReference => lemma_id_field(0x000000DB, 1, 0xdb, 0x1, 0x80),
        Class::CueRefTime => lemma_id_field(0x00000096, 1, 0x96, 0x1, 0x80),
        Class::CueRefCluster => lemma_id_field(0x00000097, 1, 0x97, 0x1, 0x80),
        Class::CueRefNumber => lemma_id_field(0x0000535F, 2, 0x53, 0x100, 0x40),
        Class::CueRefCodecState => lemma_id_field(0x000000EB, 1, 0xeb, 0x1, 0x80),
        Class::Attachments => lemma_id_field(0x1941A469, 4, 0x19, 0x1000000, 0x10),
        Class::AttachedFile => lemma_id_field(0x000061A7, 2, 0x61, 0x100, 0x40),
        Class::FileDescription => lemma_id_field(0x0000467E, 2, 0x46, 0x100, 0x40),
        Class::FileName => lemma_id_field(0x0000466E, 2, 0x46, 0x100, 0x40),
        Class::FileMimeType => lemma_id_field(0x00004660, 2, 0x46, 0x100, 0x40),
        Class::FileData => lemma_id_field(0x0000465C, 2, 0x46, 0x100, 0x40),
        Class::FileUID => lemma_id_field(0x000046AE, 2, 0x46, 0x100, 0x40),
        Class::FileReferral => lemma_id_field(0x00004675, 2, 0x46, 0x100, 0x40),
        Class::FileUsedStartTime => lemma_id_field(0x00004661, 2, 0x46, 0x100, 0x40),
        Class::FileUsedEndTime => lemma_id_field(0x00004662, 2, 0x46, 0x100, 0x40),
        Class::Chapters => lemma_id_field(0x1043A770, 4, 0x10, 0x1000000, 0x10),
        Class::EditionEntry => lemma_id_field(0x000045B9, 2, 0x45, 0x100, 0x40),
        Class::EditionUID => lemma_id_field(0x000045BC, 2, 0x45, 0x100, 0x40),
        Class::EditionFlagHidden => lemma_id_field(0x000045BD, 2, 0x45, 0x100, 0x40),
        Class::EditionFlagDefault => lemma_id_field(0x000045DB, 2, 0x45, 0x100, 0x40),
        Class::EditionFlagOrdered => lemma_id_field(0x000045DD, 2, 0x45, 0x100, 0x40),
        Class::ChapterAtom => lemma_id_field(0x000000B6, 1, 0xb6, 0x1, 0x80),
        Class::ChapterUID => lemma_id_field(0x000073C4, 2, 0x73, 0x100, 0x40),
        Class::ChapterTimeStart => lemma_id_field(0x00000091, 1, 0x91, 0x1, 0x80),
        Class::ChapterTimeEnd => lemma_id_field(0x00000092, 1, 0x92, 0x1, 0x80),
        Class::ChapterFlagHidden => lemma_id_field(0x00000098, 1, 0x98, 0x1, 0x80),
        Class::ChapterFlagEnabled => lemma_id_field(0x00004598, 2, 0x45, 0x100, 0x40),
        Class::ChapterSegmentUID => lemma_id_field(0x00006E67, 2, 0x6e, 0x100, 0x40),
        Class::ChapterSegmentEditionUID => lemma_id_field(0x00006EBC, 2, 0x6e, 0x100, 0x40),
        Class::ChapterPhysicalEquiv => lemma_id_field(0x000063C3, 2, 0x63, 0x100, 0x40),
        Class::ChapterTrack => lemma_id_field(0x0000008F, 1, 0x8f, 0x1, 0x80),
        Class::ChapterTrackNumber => lemma_id_field(0x00000089, 1, 0x89, 0x1, 0x80),
        Class::ChapterDisplay => lemma_id_field(0x00000080, 1, 0x80, 0x1, 0x80),
        Class::ChapString => lemma_id_field(0x00000085, 1, 0x85, 0x1, 0x80),
        Class::ChapLanguage => lemma_id_field(0x0000437C, 2, 0x43, 0x100, 0x40),
        Class::ChapCountry => lemma_id_field(0x0000437E, 2, 0x43, 0x100, 0x40),
        Class::ChapProcess => lemma_id_field(0x00006944, 2, 0x69, 0x100, 0x40),
        Class::ChapProcessCodecID => lemma_id_field(0x00006955, 2, 0x69, 0x100, 0x40),
        Class::ChapProcessPrivate => lemma_id_field(0x0000450D, 2, 0x45, 0x100, 0x40),
        Class::ChapProcessCommand => lemma_id_field(0x00006911, 2, 0x69, 0x100, 0x40),
        Class::ChapProcessTime => lemma_id_field(0x00006922, 2, 0x69, 0x100, 0x40),
        Class::ChapProcessData => lemma_id_field(0x00006933, 2, 0x69, 0x100, 0x40),
        Class::Tags => lemma_id_field(0x1254C367, 4, 0x12, 0x1000000, 0x10),
        Class::Tag => lemma_id_field(0x00007373, 2, 0x73, 0x100, 0x40),
        Class::Targets => lemma_id_field(0x000063C0, 2, 0x63, 0x100, 0x40),
        Class::TargetTypeValue => lemma_id_field(0x000068CA, 2, 0x68, 0x100, 0x40),
        Class::TargetType => lemma_id_field(0x000063CA, 2, 0x63, 0x100, 0x40),
        Class::TagTrackUID => lemma_id_field(0x000063C5, 2, 0x63, 0x100, 0x40),
        Class::TagEditionUID => lemma_id_field(0x000063C9, 2, 0x63, 0x100, 0x40),
        Class::TagChapterUID => lemma_id_field(0x000063C4, 2, 0x63, 0x100, 0x40),
        Class::TagAttachmentUID => lemma_id_field(0x000063C6, 2, 0x63, 0x100, 0x40),
        Class::SimpleTag => lemma_id_field(0x000067C8, 2, 0x67, 0x100, 0x40),
        Class::TagName => lemma_id_field(0x000045A3, 2, 0x45, 0x100, 0x40),
        Class::TagLanguage => lemma_id_field(0x0000447A, 2, 0x44, 0x100, 0x40),
        Class::TagDefault => lemma_id_field(0x00004484, 2, 0x44, 0x100, 0x40),
        Class::TagString => lemma_id_field(0x00004487, 2, 0x44, 0x100, 0x40),
        Class::TagBinary => lemma_id_field(0x00004485, 2, 0x44, 0x100, 0x40),
        Class::Unknown => {},
    }
}

} // verus!
