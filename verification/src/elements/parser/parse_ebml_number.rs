//! EBML variable-length numbers: element IDs and element sizes.
//!
//! The first byte of an EBML number tells its width: the position of its
//! highest set bit (the marker) gives the number of bytes, from one
//! (`1xxxxxxx`) to eight (`00000001`). A number whose value bits are all
//! ones stands for "unknown" (here `NaN`).

use vstd::prelude::*;
use crate::numbers::{pow256, be_value, lemma_be_value_bound, lemma_pow256_mono, lemma_be_value_push};

verus! {

/// Outcome of reading one EBML number.
#[derive(PartialEq, Eq, Debug, Clone, Copy, Structural)]
pub enum Result {
    /// The first byte is zero: no valid width.
    Error,
    /// The input ends before the number does.
    NotEnoughData,
    /// All value bits are ones (reserved "unknown" value).
    NaN,
    /// The number read.
    Number(u64),
}

/// How the number is read.
#[derive(PartialEq, Eq, Debug, Clone, Copy, Structural)]
pub enum Mode {
    /// Element sizes: the width marker is not part of the value.
    Unsigned,
    /// Element IDs: the width marker is kept in the value.
    Identifier,
}

/// The number of bytes of an EBML number that starts with `first` (0 if none).
pub open spec fn ebml_width(first: u8) -> nat {
    if first >= 0x80 {
        1
    } else if first >= 0x40 {
        2
    } else if first >= 0x20 {
        3
    } else if first >= 0x10 {
        4
    } else if first >= 0x08 {
        5
    } else if first >= 0x04 {
        6
    } else if first >= 0x02 {
        7
    } else if first >= 0x01 {
        8
    } else {
        0
    }
}

/// The width marker bit of a first byte (0 if none).
pub open spec fn ebml_marker(first: u8) -> nat {
    if first >= 0x80 {
        0x80
    } else if first >= 0x40 {
        0x40
    } else if first >= 0x20 {
        0x20
    } else if first >= 0x10 {
        0x10
    } else if first >= 0x08 {
        0x08
    } else if first >= 0x04 {
        0x04
    } else if first >= 0x02 {
        0x02
    } else if first >= 0x01 {
        0x01
    } else {
        0
    }
}

/// The value bits of the first byte (the marker removed).
pub open spec fn ebml_first_bits(first: u8) -> u8 {
    (first - ebml_marker(first)) as u8
}

/// The bytes whose big-endian value is the number read from `bytes` in `mode`.
pub open spec fn ebml_value_bytes(bytes: Seq<u8>, mode: Mode) -> Seq<u8> {
    let first = bytes[0];
    let f = match mode {
        Mode::Unsigned => ebml_first_bits(first),
        Mode::Identifier => first,
    };
    seq![f] + bytes.subrange(1, ebml_width(first) as int)
}

/// The value bits of the number at the start of `bytes` are all ones.
pub open spec fn ebml_is_nan(bytes: Seq<u8>) -> bool {
    let first = bytes[0];
    &&& ebml_first_bits(first) == ebml_marker(first) - 1
    &&& forall|i: int| 1 <= i < ebml_width(first) ==> bytes[i] == 0xFF
}

/// The result of reading an EBML number at the start of `bytes`.
pub open spec fn spec_ebml_result(bytes: Seq<u8>, mode: Mode) -> Result {
    if bytes.len() == 0 {
        Result::NotEnoughData
    } else if ebml_width(bytes[0]) == 0 {
        Result::Error
    } else if bytes.len() < ebml_width(bytes[0]) {
        Result::NotEnoughData
    } else if ebml_is_nan(bytes) {
        Result::NaN
    } else {
        Result::Number(be_value(ebml_value_bytes(bytes, mode)) as u64)
    }
}

/// How many bytes reading an EBML number at the start of `bytes` consumes.
pub open spec fn spec_ebml_consumed(bytes: Seq<u8>, mode: Mode) -> nat {
    match spec_ebml_result(bytes, mode) {
        Result::NaN | Result::Number(_) => ebml_width(bytes[0]),
        _ => 0,
    }
}

/// A value byte in front of others: `f * 256^|r| + value(r)`.
pub proof fn lemma_be_value_prepend(f: u8, r: Seq<u8>)
    ensures
        be_value(seq![f] + r) == f * pow256(r.len()) + be_value(r),
    decreases r.len(),
{
    if r.len() == 0 {
        assert(seq![f] + r =~= seq![f]);
        assert(seq![f].drop_last() =~= Seq::<u8>::empty());
        assert(be_value(Seq::<u8>::empty()) == 0);
        assert(be_value(seq![f]) == f);
        assert(pow256(0) == 1);
    } else {
        let init = r.drop_last();
        lemma_be_value_prepend(f, init);
        assert((seq![f] + r).drop_last() =~= seq![f] + init);
        assert((seq![f] + r).last() == r.last());
        let p = pow256(init.len());
        assert(pow256(r.len()) == 256 * p);
        assert((f * p + be_value(init)) * 256 + r.last() == f * (256 * p) + (be_value(init) * 256 + r.last()))
            by (nonlinear_arith);
    }
}

/// An element size (a number read in `Unsigned` mode) is below `2^56`.
pub proof fn lemma_ebml_unsigned_bound(bytes: Seq<u8>)
    requires
        spec_ebml_result(bytes, Mode::Unsigned) is Number,
    ensures
        spec_ebml_result(bytes, Mode::Unsigned)->Number_0 < 0x100000000000000,
{
    let first = bytes[0];
    let n = ebml_width(first);
    let r = bytes.subrange(1, n as int);
    let f = ebml_first_bits(first);
    assert(ebml_value_bytes(bytes, Mode::Unsigned) =~= seq![f] + r);
    lemma_be_value_prepend(f, r);
    lemma_be_value_bound(r);
    reveal_with_fuel(pow256, 9);
    let v = be_value(seq![f] + r);
    let b = be_value(r);
    let p = pow256(r.len());
    assert(r.len() == n - 1);
    if n == 1 {
        assert(v < 0x100000000000000) by (nonlinear_arith) requires v == f * p + b, f < 0x80, p == 1, b < p;
    } else if n == 2 {
        assert(v < 0x100000000000000) by (nonlinear_arith) requires v == f * p + b, f < 0x40, p == 0x100, b < p;
    } else if n == 3 {
        assert(v < 0x100000000000000) by (nonlinear_arith) requires v == f * p + b, f < 0x20, p == 0x10000, b < p;
    } else if n == 4 {
        assert(v < 0x100000000000000) by (nonlinear_arith) requires v == f * p + b, f < 0x10, p == 0x1000000, b < p;
    } else if n == 5 {
        assert(v < 0x100000000000000) by (nonlinear_arith) requires v == f * p + b, f < 0x08, p == 0x100000000, b < p;
    } else if n == 6 {
        assert(v < 0x100000000000000) by (nonlinear_arith) requires v == f * p + b, f < 0x04, p == 0x10000000000, b < p;
    } else if n == 7 {
        assert(v < 0x100000000000000) by (nonlinear_arith) requires v == f * p + b, f < 0x02, p == 0x1000000000000, b < p;
    } else {
        assert(v < 0x100000000000000) by (nonlinear_arith) requires v == f * p + b, f < 0x01, p == 0x100000000000000, b < p;
    }
}

/// The width marker bit of a first byte (0 if none).
pub fn marker_of(first: u8) -> (m: u8)
    ensures
        m == ebml_marker(first),
{
    if first >= 0x80 {
        0x80
    } else if first >= 0x40 {
        0x40
    } else if first >= 0x20 {
        0x20
    } else if first >= 0x10 {
        0x10
    } else if first >= 0x08 {
        0x08
    } else if first >= 0x04 {
        0x04
    } else if first >= 0x02 {
        0x02
    } else if first >= 0x01 {
        0x01
    } else {
        0
    }
}

/// Reads one EBML number from the start of `bytes`; returns it with the rest
/// of the input that it did not use (all of it unless the number was read).
pub fn parse_ebml_number(bytes: &[u8], mode: Mode) -> (res: (Result, &[u8]))
    ensures
        res.0 == spec_ebml_result(bytes@, mode),
        res.1@ == bytes@.subrange(spec_ebml_consumed(bytes@, mode) as int, bytes@.len() as int),
{
    if bytes.len() == 0 {
        return (Result::NotEnoughData, bytes);
    }
    let firstbyte = bytes[0];
    let more_bytes: usize;
    let marker: u8;
    if firstbyte >= 0x80 {
        more_bytes = 0;
        marker = 0x80;
    } else if firstbyte >= 0x40 {
        more_bytes = 1;
        marker = 0x40;
    } else if firstbyte >= 0x20 {
        more_bytes = 2;
        marker = 0x20;
    } else if firstbyte >= 0x10 {
        more_bytes = 3;
        marker = 0x10;
    } else if firstbyte >= 0x08 {
        more_bytes = 4;
        marker = 0x08;
    } else if firstbyte >= 0x04 {
        more_bytes = 5;
        marker = 0x04;
    } else if firstbyte >= 0x02 {
        more_bytes = 6;
        marker = 0x02;
    } else if firstbyte >= 0x01 {
        more_bytes = 7;
        marker = 0x01;
    } else {
        return (Result::Error, bytes);
    }
    if bytes.len() < 1 + more_bytes {
        return (Result::NotEnoughData, bytes);
    }
    let ghost vb = ebml_value_bytes(bytes@, mode);
    let bits = firstbyte - marker;
    let mut x: u64 = match mode {
        Mode::Unsigned => bits as u64,
        Mode::Identifier => firstbyte as u64,
    };
    let mut is_nan = bits == marker - 1;
    proof {
        assert(vb.subrange(0, 1) =~= seq![vb[0]]);
        assert(seq![vb[0]].drop_last() =~= Seq::<u8>::empty());
        assert(be_value(Seq::<u8>::empty()) == 0);
        assert(be_value(seq![vb[0]]) == vb[0]);
        assert(x == vb[0]);
        lemma_pow256_mono(1, 8);
        reveal_with_fuel(pow256, 9);
    }
    let mut i: usize = 0;
    while i < more_bytes
        invariant
            more_bytes + 1 == ebml_width(firstbyte),
            firstbyte == bytes@[0],
            bytes.len() >= 1 + more_bytes,
            more_bytes <= 7,
            vb == ebml_value_bytes(bytes@, mode),
            vb.len() == more_bytes + 1,
            i <= more_bytes,
            x == be_value(vb.subrange(0, i + 1)),
            x < pow256((i + 1) as nat),
            pow256(7) == 0x100000000000000,
            is_nan == (bits == marker - 1 && forall|j: int| 1 <= j <= i ==> bytes@[j] == 0xFF),
            bits == ebml_first_bits(firstbyte),
            marker == ebml_marker(firstbyte),
        decreases more_bytes - i,
    {
        let nextbyte = bytes[1 + i];
        proof {
            lemma_pow256_mono((i + 1) as nat, 7);
            assert(vb.subrange(0, i + 2) =~= vb.subrange(0, i + 1).push(nextbyte));
            lemma_be_value_push(vb.subrange(0, i + 1), nextbyte);
        }
        x = x * 256 + nextbyte as u64;
        if nextbyte != 0xFF {
            is_nan = false;
        }
        i = i + 1;
    }
    proof {
        assert(vb.subrange(0, more_bytes + 1) =~= vb);
    }
    let (_, rest) = bytes.split_at(1 + more_bytes);
    if is_nan {
        (Result::NaN, rest)
    } else {
        (Result::Number(x), rest)
    }
}

} // verus!
