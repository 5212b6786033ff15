//! EBML numbers as values: their value bits and their width.

use vstd::prelude::*;
use crate::numbers::be_value;
use crate::elements::parser::parse_ebml_number::{
    parse_ebml_number, marker_of, Mode, Result, spec_ebml_result, ebml_width, ebml_value_bytes,
    lemma_ebml_unsigned_bound,
};
use crate::elements::parser::decode::decode_unsigned;

verus! {

/// An EBML number: its value bits and its width in bytes.
#[derive(Debug, Eq, PartialEq, Clone, Copy, Structural)]
pub struct EbmlNumber {
    pub raw_value: u64,
    pub length: usize,
}

/// The outcome of a reader: what was read and the rest of the input, or
/// malformed input, or input that ends too soon.
#[derive(Debug, Eq, PartialEq, Clone, Copy)]
pub enum IResult<I, O> {
    Done(I, O),
    Error,
    Incomplete,
}

impl<I, O> IResult<I, O> {
    /// The rest of the input and what was read, of a reader that was done.
    pub fn unwrap(self) -> (r: (I, O))
        requires
            self is Done,
        ensures
            self == IResult::Done(r.0, r.1),
    {
        match self {
            IResult::Done(i, o) => (i, o),
            _ => vstd::pervasive::unreached(),
        }
    }
}

/// 128 to the power `k`: one more than the largest value of `k` bytes.
pub open spec fn pow128(k: nat) -> nat
    decreases k,
{
    if k == 0 {
        1
    } else {
        128 * pow128((k - 1) as nat)
    }
}

/// `128^k` for `k <= 9`.
fn exec_pow128(k: usize) -> (p: u64)
    requires
        k <= 9,
    ensures
        p == pow128(k as nat),
{
    let mut p: u64 = 1;
    let mut i: usize = 0;
    proof {
        reveal_with_fuel(pow128, 10);
    }
    while i < k
        invariant
            i <= k <= 9,
            p == pow128(i as nat),
            pow128(9) == 0x8000000000000000,
        decreases k - i,
    {
        proof {
            lemma_pow128_mono(i as nat, 8);
        }
        p = p * 128;
        i = i + 1;
    }
    p
}

proof fn lemma_pow128_mono(a: nat, b: nat)
    requires
        a <= b,
    ensures
        pow128(a) <= pow128(b),
    decreases b,
{
    if a < b {
        lemma_pow128_mono(a, (b - 1) as nat);
    }
}

impl EbmlNumber {
    /// A number that a reader can give: one to eight bytes, its value
    /// fitting in its value bits.
    pub open spec fn wf(&self) -> bool {
        &&& 1 <= self.length <= 8
        &&& self.raw_value < pow128(self.length as nat)
    }

    /// All value bits are ones: the reserved "unknown" value.
    pub fn is_nan(&self) -> (r: bool)
        ensures
            r == (self.raw_value + 1 == pow128(self.length as nat)),
    {
        if self.length > 9 {
            proof {
                reveal_with_fuel(pow128, 11);
                lemma_pow128_mono(10, self.length as nat);
            }
            return false;
        }
        let p = exec_pow128(self.length);
        proof {
            reveal_with_fuel(pow128, 10);
        }
        p > 0 && self.raw_value == p - 1
    }

    /// The number as an ID: its width marker put back.
    pub fn as_id(&self) -> (r: u64)
        requires
            self.wf(),
        ensures
            r == self.raw_value + pow128(self.length as nat),
    {
        proof {
            reveal_with_fuel(pow128, 10);
            lemma_pow128_mono(self.length as nat, 8);
        }
        self.raw_value + exec_pow128(self.length)
    }

    /// The number as a signed value: two's complement in its value bits.
    pub fn as_signed(&self) -> (r: i64)
        requires
            self.wf(),
        ensures
            r == (if self.raw_value * 2 >= pow128(self.length as nat) {
                self.raw_value - pow128(self.length as nat)
            } else {
                self.raw_value as int
            }),
    {
        proof {
            reveal_with_fuel(pow128, 10);
            lemma_pow128_mono(self.length as nat, 8);
        }
        let p = exec_pow128(self.length);
        if self.raw_value >= p / 2 + p % 2 {
            assert(self.raw_value * 2 >= p);
            (self.raw_value as i64) - (p as i64)
        } else {
            self.raw_value as i64
        }
    }
}

/// What reading an EBML number at the start of `input` gives: its value
/// bits and width, with the rest of the input.
pub open spec fn spec_ebml_number(input: Seq<u8>) -> IResult<Seq<u8>, EbmlNumber> {
    if input.len() == 0 {
        IResult::Incomplete
    } else if ebml_width(input[0]) == 0 {
        IResult::Error
    } else if input.len() < ebml_width(input[0]) {
        IResult::Incomplete
    } else {
        IResult::Done(
            input.subrange(ebml_width(input[0]) as int, input.len() as int),
            EbmlNumber {
                raw_value: be_value(ebml_value_bytes(input, Mode::Unsigned)) as u64,
                length: ebml_width(input[0]) as usize,
            },
        )
    }
}

/// Reads an EBML number at the start of `input`.
pub fn ebml_number(input: &[u8]) -> (r: IResult<&[u8], EbmlNumber>)
    ensures
        match (r, spec_ebml_number(input@)) {
            (IResult::Done(rest, v), IResult::Done(srest, sv)) => rest@ == srest && v == sv,
            (IResult::Error, IResult::Error) => true,
            (IResult::Incomplete, IResult::Incomplete) => true,
            _ => false,
        },
{
    let (r, rest) = parse_ebml_number(input, Mode::Unsigned);
    match r {
        Result::Error => IResult::Error,
        Result::NotEnoughData => IResult::Incomplete,
        _ => {
            let n = input.len() - rest.len();
            let (head, _) = input.split_at(n);
            let mut vb = vstd::slice::slice_to_vec(head);
            let first = vb[0];
            let m = marker_of(first);
            vb.set(0, first - m);
            assert(vb@ =~= ebml_value_bytes(input@, Mode::Unsigned));
            let raw = decode_unsigned(vb.as_slice());
            IResult::Done(rest, EbmlNumber { raw_value: raw, length: n })
        },
    }
}

} // verus!
