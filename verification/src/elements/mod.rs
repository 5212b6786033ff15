//! The Matroska element model: element types and the element tree.

pub mod database;
pub mod parser;
pub mod generator;
pub mod builder;
pub mod midlevel;
pub mod templates;
pub mod roundtrip;

use vstd::prelude::*;
use std::rc::Rc;
use self::database::Class;

verus! {

/// The kind of payload an element carries.
#[derive(Debug, Eq, PartialEq, Clone, Copy, Structural)]
pub enum Type {
    Master,
    Unsigned,
    Signed,
    TextAscii,
    TextUtf8,
    Binary,
    Float,
    Date,
}

/// The raw IEEE-754 bits of a floating-point payload, as stored big-endian
/// in the file: four bytes (single precision) or eight (double precision).
#[derive(Debug, Eq, PartialEq, PartialOrd, Clone, Copy, Hash, Structural)]
pub enum FloatBits {
    Single(u32),
    Double(u64),
}

/// The payload of an element in the element tree.
#[derive(PartialEq, Debug, PartialOrd, Clone)]
pub enum ElementContent {
    Master(Vec<Rc<Element>>),
    Unsigned(u64),
    Signed(i64),
    Binary(Rc<Vec<u8>>),
    Text(Rc<String>),
    Float(FloatBits),
    /// Nanoseconds since 2001-01-01T00:00:00 UTC.
    MatroskaDate(i64),
    /// An element of an ID that the table does not know, and its payload.
    Unknown(u64, Rc<Vec<u8>>),
}

/// An element of the element tree.
#[derive(PartialEq, Debug, PartialOrd, Clone)]
pub struct Element {
    pub class: Class,
    pub content: ElementContent,
}

/// The mathematical value of an element's payload.
#[verifier::ext_equal]
pub enum SpecElementContent {
    Master(Seq<SpecElement>),
    Unsigned(u64),
    Signed(i64),
    Binary(Seq<u8>),
    Text(Seq<char>),
    Float(FloatBits),
    MatroskaDate(i64),
    Unknown(u64, Seq<u8>),
}

/// The mathematical value of an element.
#[verifier::ext_equal]
pub struct SpecElement {
    pub class: Class,
    pub content: SpecElementContent,
}

/// The value of an element and, in turn, of the elements it holds.
pub open spec fn element_view(e: Element) -> SpecElement
    decreases e, 1nat,
{
    SpecElement { class: e.class, content: content_view(e.content) }
}

/// The value of a payload.
pub open spec fn content_view(c: ElementContent) -> SpecElementContent
    decreases c, 0nat,
{
    match c {
        ElementContent::Master(v) => SpecElementContent::Master(children_view(v@)),
        ElementContent::Unsigned(x) => SpecElementContent::Unsigned(x),
        ElementContent::Signed(x) => SpecElementContent::Signed(x),
        ElementContent::Binary(b) => SpecElementContent::Binary((*b)@),
        ElementContent::Text(t) => SpecElementContent::Text((*t)@),
        ElementContent::Float(f) => SpecElementContent::Float(f),
        ElementContent::MatroskaDate(x) => SpecElementContent::MatroskaDate(x),
        ElementContent::Unknown(id, b) => SpecElementContent::Unknown(id, (*b)@),
    }
}

/// The values of a sequence of elements.
pub open spec fn children_view(v: Seq<Rc<Element>>) -> Seq<SpecElement>
    decreases v, 2nat,
{
    if v.len() == 0 {
        Seq::empty()
    } else {
        children_view(v.drop_last()).push(element_view(*v.last()))
    }
}

impl View for Element {
    type V = SpecElement;

    open spec fn view(&self) -> SpecElement {
        element_view(*self)
    }
}

/// `children_view` keeps lengths and maps each element.
pub proof fn lemma_children_view(v: Seq<Rc<Element>>)
    ensures
        children_view(v).len() == v.len(),
        forall|i: int| 0 <= i < v.len() ==> #[trigger] children_view(v)[i] == element_view(*v[i]),
    decreases v.len(),
{
    if v.len() > 0 {
        lemma_children_view(v.drop_last());
    }
}

// Cosy constructors

/// A binary element.
pub fn el_bin(c: Class, d: Vec<u8>) -> (e: Element)
    ensures
        e@ == (SpecElement { class: c, content: SpecElementContent::Binary(d@) }),
{
    Element { class: c, content: ElementContent::Binary(Rc::new(d)) }
}

/// An unsigned integer element.
pub fn el_uns(c: Class, d: u64) -> (e: Element)
    ensures
        e@ == (SpecElement { class: c, content: SpecElementContent::Unsigned(d) }),
{
    Element { class: c, content: ElementContent::Unsigned(d) }
}

/// A signed integer element.
pub fn el_sig(c: Class, d: i64) -> (e: Element)
    ensures
        e@ == (SpecElement { class: c, content: SpecElementContent::Signed(d) }),
{
    Element { class: c, content: ElementContent::Signed(d) }
}

/// A floating-point element, from the bits of its value.
pub fn el_flo(c: Class, d: FloatBits) -> (e: Element)
    ensures
        e@ == (SpecElement { class: c, content: SpecElementContent::Float(d) }),
{
    Element { class: c, content: ElementContent::Float(d) }
}

/// A text element.
pub fn el_txt(c: Class, d: String) -> (e: Element)
    ensures
        e@ == (SpecElement { class: c, content: SpecElementContent::Text(d@) }),
{
    Element { class: c, content: ElementContent::Text(Rc::new(d)) }
}

/// A date element (nanoseconds since 2001-01-01T00:00:00 UTC).
pub fn el_date(c: Class, d: i64) -> (e: Element)
    ensures
        e@ == (SpecElement { class: c, content: SpecElementContent::MatroskaDate(d) }),
{
    Element { class: c, content: ElementContent::MatroskaDate(d) }
}

/// A master element holding the given elements, in order.
pub fn el(c: Class, d: Vec<Element>) -> (e: Element)
    ensures
        e@ == (SpecElement { class: c, content: SpecElementContent::Master(d@.map_values(|x: Element| x@)) }),
{
    let mut v: Vec<Rc<Element>> = Vec::new();
    let mut d = d;
    let ghost d0 = d@;
    let mut i: usize = 0;
    let n = d.len();
    while i < n
        invariant
            n == d0.len(),
            i <= n,
            d@ == d0.subrange(i as int, n as int),
            children_view(v@) == d0.subrange(0, i as int).map_values(|x: Element| x@),
        decreases n - i,
    {
        let x = d.remove(0);
        let ghost v0 = v@;
        assert(d@ =~= d0.subrange(i + 1, n as int));
        v.push(Rc::new(x));
        proof {
            assert(v@.drop_last() =~= v0);
            assert(d0.subrange(0, i + 1).map_values(|x: Element| x@)
                =~= d0.subrange(0, i as int).map_values(|x: Element| x@).push(x@));
        }
        i = i + 1;
    }
    assert(d0.subrange(0, n as int) =~= d0);
    Element { class: c, content: ElementContent::Master(v) }
}

} // verus!
