//! Decoding element payloads by their type.

use vstd::prelude::*;
use vstd::utf8::{valid_utf8, decode_utf8};
use crate::numbers::{pow256, be_value, lemma_be_value_bound, lemma_pow256_mono, lemma_be_value_push};
use crate::elements::{Type, FloatBits};
use super::{SimpleContent, SpecContent, BinaryChunkStatus};

verus! {

/// The number `q` followed by the bytes `s` in big-endian order,
/// that is `q * 256^|s| + value(s)`, built byte by byte.
pub open spec fn be_after(q: int, s: Seq<u8>) -> int
    decreases s.len(),
{
    if s.len() == 0 {
        q
    } else {
        be_after(q, s.drop_last()) * 256 + s.last()
    }
}

/// The value that the first byte of a signed payload contributes: bytes
/// from 0x80 up count downwards from zero.
pub open spec fn signed_lead(first: u8) -> int {
    if first >= 0x80 {
        0x80 - first
    } else {
        first as int
    }
}

/// The value of a signed (or date) payload as this parser reads it.
pub open spec fn spec_signed_value(l: Seq<u8>) -> int {
    if l.len() == 0 {
        0
    } else {
        be_after(signed_lead(l[0]), l.subrange(1, l.len() as int))
    }
}

/// What a payload of type `typ` decodes to; `None` when it is malformed.
pub open spec fn spec_decode(l: Seq<u8>, typ: Type) -> Option<SpecContent> {
    match typ {
        Type::Master => None,
        Type::Binary => Some(SpecContent::Binary(l, BinaryChunkStatus::Full)),
        Type::Unsigned => if l.len() > 8 {
            None
        } else {
            Some(SpecContent::Unsigned(be_value(l) as u64))
        },
        Type::Signed => if l.len() > 8 {
            None
        } else {
            Some(SpecContent::Signed(spec_signed_value(l) as i64))
        },
        Type::Date => if l.len() > 8 {
            None
        } else {
            Some(SpecContent::MatroskaDate(spec_signed_value(l) as i64))
        },
        Type::TextAscii | Type::TextUtf8 => if valid_utf8(l) {
            Some(SpecContent::Text(decode_utf8(l)))
        } else {
            None
        },
        Type::Float => if l.len() == 8 {
            Some(SpecContent::Float(FloatBits::Double(be_value(l) as u64)))
        } else if l.len() == 4 {
            Some(SpecContent::Float(FloatBits::Single(be_value(l) as u32)))
        } else if l.len() == 0 {
            Some(SpecContent::Float(FloatBits::Double(0)))
        } else if l.len() == 10 {
            // ten-byte floats are not supported by Matroska: passed on as bytes
            Some(SpecContent::Binary(l, BinaryChunkStatus::Full))
        } else {
            None
        },
    }
}

/// `be_after` is the leading number shifted by the bytes, plus their value.
proof fn lemma_be_after_bounds(q: int, s: Seq<u8>)
    requires
        -127 <= q <= 127,
    ensures
        -127 * pow256(s.len()) <= be_after(q, s) < 128 * pow256(s.len()),
    decreases s.len(),
{
    if s.len() > 0 {
        lemma_be_after_bounds(q, s.drop_last());
    }
}

/// `std::str::from_utf8`: `Some` exactly when the bytes are valid UTF-8,
/// and then the text of the characters they encode.
#[verifier::external_body]
fn utf8_str(bytes: &[u8]) -> (r: Option<&str>)
    ensures
        r is Some <==> valid_utf8(bytes@),
        r matches Some(s) ==> s@ == decode_utf8(bytes@),
{
    match std::str::from_utf8(bytes) {
        Ok(s) => Some(s),
        Err(_) => None,
    }
}

/// The unsigned big-endian value of up to eight bytes.
pub fn decode_unsigned(l: &[u8]) -> (v: u64)
    requires
        l.len() <= 8,
    ensures
        v == be_value(l@),
{
    let mut q: u64 = 0;
    let mut i: usize = 0;
    proof {
        reveal_with_fuel(pow256, 9);
        assert(l@.subrange(0, 0) =~= Seq::<u8>::empty());
    }
    while i < l.len()
        invariant
            l.len() <= 8,
            i <= l.len(),
            q == be_value(l@.subrange(0, i as int)),
            q < pow256(i as nat),
            pow256(7) == 0x100000000000000,
        decreases l.len() - i,
    {
        proof {
            lemma_pow256_mono(i as nat, 7);
            assert(l@.subrange(0, i + 1) =~= l@.subrange(0, i as int).push(l@[i as int]));
            lemma_be_value_push(l@.subrange(0, i as int), l@[i as int]);
            lemma_be_value_bound(l@.subrange(0, i + 1));
        }
        q = q * 256 + l[i] as u64;
        i = i + 1;
    }
    proof {
        assert(l@.subrange(0, i as int) =~= l@);
    }
    q
}

/// The signed value of up to eight bytes as this parser reads it.
pub fn decode_signed(l: &[u8]) -> (v: i64)
    requires
        l.len() <= 8,
    ensures
        v == spec_signed_value(l@),
{
    if l.len() == 0 {
        return 0;
    }
    let first = l[0];
    let mut q: i64 = if first >= 0x80 {
        0x80 - (first as i64)
    } else {
        first as i64
    };
    let ghost lead = signed_lead(first);
    let mut i: usize = 1;
    proof {
        reveal_with_fuel(pow256, 9);
        assert(l@.subrange(1, 1) =~= Seq::<u8>::empty());
    }
    while i < l.len()
        invariant
            l.len() <= 8,
            1 <= i <= l.len(),
            lead == signed_lead(l@[0]),
            -127 <= lead <= 127,
            q == be_after(lead, l@.subrange(1, i as int)),
            pow256(6) == 0x1000000000000,
        decreases l.len() - i,
    {
        proof {
            lemma_be_after_bounds(lead, l@.subrange(1, i as int));
            lemma_pow256_mono((i - 1) as nat, 6);
            assert(l@.subrange(1, i + 1) =~= l@.subrange(1, i as int).push(l@[i as int]));
            assert(l@.subrange(1, i + 1).drop_last() =~= l@.subrange(1, i as int));
        }
        q = q * 256 + l[i] as i64;
        i = i + 1;
    }
    q
}

/// Decodes a payload of type `typ`; `None` when it is malformed.
pub fn decode_content(l: &[u8], typ: Type) -> (r: Option<SimpleContent>)
    requires
        typ != Type::Master,
    ensures
        match r {
            None => spec_decode(l@, typ) is None,
            Some(c) => spec_decode(l@, typ) == Some(c@),
        },
{
    match typ {
        Type::Master => None,
        Type::Binary => Some(SimpleContent::Binary(vstd::slice::slice_to_vec(l), BinaryChunkStatus::Full)),
        Type::Unsigned => {
            if l.len() > 8 {
                None
            } else {
                Some(SimpleContent::Unsigned(decode_unsigned(l)))
            }
        },
        Type::Signed => {
            if l.len() > 8 {
                None
            } else {
                Some(SimpleContent::Signed(decode_signed(l)))
            }
        },
        Type::Date => {
            if l.len() > 8 {
                None
            } else {
                Some(SimpleContent::MatroskaDate(decode_signed(l)))
            }
        },
        Type::TextAscii | Type::TextUtf8 => {
            match utf8_str(l) {
                Some(s) => Some(SimpleContent::Text(s.to_owned())),
                None => None,
            }
        },
        Type::Float => {
            if l.len() == 8 {
                Some(SimpleContent::Float(FloatBits::Double(decode_unsigned(l))))
            } else if l.len() == 4 {
                let v = decode_unsigned(l);
                proof {
                    lemma_be_value_bound(l@);
                    reveal_with_fuel(pow256, 5);
                }
                Some(SimpleContent::Float(FloatBits::Single(v as u32)))
            } else if l.len() == 0 {
                Some(SimpleContent::Float(FloatBits::Double(0)))
            } else if l.len() == 10 {
                Some(SimpleContent::Binary(vstd::slice::slice_to_vec(l), BinaryChunkStatus::Full))
            } else {
                None
            }
        },
    }
}

} // verus!
