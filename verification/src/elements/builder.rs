//! Events to the element tree.

use vstd::prelude::*;
use std::rc::Rc;
use super::{Element, ElementContent, SpecElement, SpecElementContent, Type, children_view, content_view, element_view, lemma_children_view};
use super::database::{Class, id_to_class, class_to_type, spec_id_to_class, spec_class_to_type};
use super::parser::{Event, EventsHandler, SimpleContent, SpecContent};
use super::parser::machine::SpecEvent;

verus! {

/// One level of the tree under construction: the elements finished at
/// this level, the payload of the element being read, its ID, and whether
/// an element is open at this level.
pub struct Frame {
    ce: Vec<Rc<Element>>,
    cc: Option<ElementContent>,
    cid: u64,
    in_middle: bool,
}

/// The value of a level.
pub struct FrameView {
    pub ce: Seq<SpecElement>,
    pub cc: Option<SpecElementContent>,
    pub cid: u64,
    pub in_middle: bool,
}

impl View for Frame {
    type V = FrameView;

    closed spec fn view(&self) -> FrameView {
        FrameView {
            ce: children_view(self.ce@),
            cc: match self.cc {
                Some(c) => Some(content_view(c)),
                None => None,
            },
            cid: self.cid,
            in_middle: self.in_middle,
        }
    }
}

/// The element payload that a parser payload becomes.
pub open spec fn spec_content_of(c: SpecContent) -> SpecElementContent {
    match c {
        SpecContent::Unsigned(x) => SpecElementContent::Unsigned(x),
        SpecContent::Signed(x) => SpecElementContent::Signed(x),
        SpecContent::Text(s) => SpecElementContent::Text(s),
        SpecContent::Binary(b, _) => SpecElementContent::Binary(b),
        SpecContent::Float(f) => SpecElementContent::Float(f),
        SpecContent::MatroskaDate(x) => SpecElementContent::MatroskaDate(x),
    }
}

/// An empty level.
pub open spec fn empty_frame() -> FrameView {
    FrameView { ce: Seq::empty(), cc: None, cid: 0, in_middle: false }
}

/// The level that an `End` closes: the first (from the outermost) that
/// has no deeper level with an element open in it.
pub open spec fn end_level(frames: Seq<FrameView>, j: nat) -> nat
    decreases frames.len() - j,
{
    if j + 1 >= frames.len() || !frames[(j + 1) as int].in_middle {
        j
    } else {
        end_level(frames, j + 1)
    }
}

/// The levels after one event. `Begin`, `Data` and `Resync` go to the
/// deepest level; a master element opens a new level below it. `End`
/// closes an element at its level: a master takes the elements finished
/// one level down (which goes away) as its payload. An element whose
/// payload never came is dropped.
pub open spec fn spec_builder_event(frames: Seq<FrameView>, e: SpecEvent) -> Seq<FrameView> {
    let k = frames.len() - 1;
    let fk = frames[k];
    match e {
        SpecEvent::Begin(info) => {
            let fr = frames.update(k, FrameView { in_middle: true, cid: info.id, ..fk });
            if spec_class_to_type(spec_id_to_class(info.id)) == Type::Master {
                fr.push(empty_frame())
            } else {
                fr
            }
        },
        SpecEvent::Data(c) => frames.update(k, FrameView { cc: Some(spec_content_of(c)), ..fk }),
        SpecEvent::End(_) => {
            let j = end_level(frames, 0);
            let fj = frames[j as int];
            let cc = if j < k {
                Some(SpecElementContent::Master(frames[(j + 1) as int].ce))
            } else {
                fj.cc
            };
            let ce = match cc {
                Some(c) => fj.ce.push(SpecElement { class: spec_id_to_class(fj.cid), content: c }),
                None => fj.ce,
            };
            frames.subrange(0, j as int).push(FrameView { ce, cc: None, cid: fj.cid, in_middle: false })
        },
        SpecEvent::Resync => frames,
    }
}

/// `end_level` names a level.
proof fn lemma_end_level_bound(frames: Seq<FrameView>, j: nat)
    requires
        j < frames.len(),
    ensures
        j <= end_level(frames, j) < frames.len(),
    decreases frames.len() - j,
{
    if !(j + 1 >= frames.len() || !frames[(j + 1) as int].in_middle) {
        lemma_end_level_bound(frames, j + 1);
    }
}

/// A builder never loses an element it has built whole: after any event,
/// the top-level elements built before it come first, unchanged, among
/// those built after it; at most one is added. A `Resync` changes nothing.
pub proof fn lemma_builder_keeps_captured(frames: Seq<FrameView>, e: SpecEvent)
    requires
        frames.len() >= 1,
    ensures
        spec_builder_event(frames, e).len() >= 1,
        frames[0].ce.is_prefix_of(spec_builder_event(frames, e)[0].ce),
        spec_builder_event(frames, e)[0].ce.len() <= frames[0].ce.len() + 1,
        e is Resync ==> spec_builder_event(frames, e) == frames,
{
    let k = frames.len() - 1;
    match e {
        SpecEvent::End(_) => {
            lemma_end_level_bound(frames, 0);
            let j = end_level(frames, 0);
            let r = spec_builder_event(frames, e);
            if j == 0 {
                assert(r[0].ce.subrange(0, frames[0].ce.len() as int) =~= frames[0].ce);
            } else {
                assert(r[0] == frames[0]);
                assert(frames[0].ce.subrange(0, frames[0].ce.len() as int) =~= frames[0].ce);
            }
        },
        _ => {
            let r = spec_builder_event(frames, e);
            assert(r[0].ce == frames[0].ce);
            assert(frames[0].ce.subrange(0, frames[0].ce.len() as int) =~= frames[0].ce);
        },
    }
}

/// The element payload that a parser payload becomes.
fn content_of(c: SimpleContent) -> (r: ElementContent)
    ensures
        content_view(r) == spec_content_of(c@),
{
    match c {
        SimpleContent::Unsigned(x) => ElementContent::Unsigned(x),
        SimpleContent::Signed(x) => ElementContent::Signed(x),
        SimpleContent::Text(x) => ElementContent::Text(Rc::new(x)),
        SimpleContent::Binary(x, _) => ElementContent::Binary(Rc::new(x)),
        SimpleContent::Float(x) => ElementContent::Float(x),
        SimpleContent::MatroskaDate(x) => ElementContent::MatroskaDate(x),
    }
}

/// Builds element trees from the events of a parser.
pub struct Builder {
    frames: Vec<Frame>,
}

impl View for Builder {
    type V = Seq<FrameView>;

    closed spec fn view(&self) -> Seq<FrameView> {
        self.frames@.map_values(|f: Frame| f@)
    }
}

impl Builder {
    /// The builder has a top level.
    pub open spec fn wf(&self) -> bool {
        self@.len() >= 1
    }

    /// The elements built so far (the top level's).
    pub open spec fn spec_captured(&self) -> Seq<SpecElement> {
        self@[0].ce
    }

    /// A builder that has seen no event.
    pub fn new() -> (b: Builder)
        ensures
            b.wf(),
            b@ == seq![empty_frame()],
    {
        let b = Builder { frames: vec![Frame { ce: Vec::new(), cc: None, cid: 0, in_middle: false }] };
        proof {
            assert(children_view(Seq::<Rc<Element>>::empty()) == Seq::<SpecElement>::empty());
            assert(b@ =~= seq![empty_frame()]);
        }
        b
    }

    /// The elements built so far.
    pub fn captured_elements(&self) -> (r: &Vec<Rc<Element>>)
        requires
            self.wf(),
        ensures
            children_view(r@) == self.spec_captured(),
    {
        &self.frames[0].ce
    }

    /// The elements built so far, taken from the builder.
    pub fn into_captured_elements(self) -> (r: Vec<Rc<Element>>)
        requires
            self.wf(),
        ensures
            children_view(r@) == self.spec_captured(),
    {
        let mut frames = self.frames;
        let f = frames.swap_remove(0);
        f.ce
    }

    fn top_frame_view(&self) -> (k: usize)
        requires
            self.wf(),
        ensures
            k == self@.len() - 1,
            k == self.frames@.len() - 1,
    {
        self.frames.len() - 1
    }

    /// Takes in one event (see `spec_builder_event`).
    pub fn handle(&mut self, e: Event)
        requires
            old(self).wf(),
        ensures
            final(self).wf(),
            final(self)@ == spec_builder_event(old(self)@, e@),
            old(self).spec_captured().is_prefix_of(final(self).spec_captured()),
            e is Resync ==> final(self)@ == old(self)@,
    {
        proof {
            lemma_builder_keeps_captured(old(self)@, e@);
        }
        let ghost v0 = self@;
        let ghost fr0 = self.frames@;
        let k = self.top_frame_view();
        match e {
            Event::Begin(x) => {
                let mut f = self.frames.pop().unwrap();
                f.in_middle = true;
                f.cid = x.id;
                self.frames.push(f);
                proof {
                    assert(self.frames@ =~= fr0.update(k as int, f));
                    assert(self@ =~= v0.update(k as int, FrameView { in_middle: true, cid: x.id, ..v0[k as int] }));
                }
                let cl = id_to_class(x.id);
                let typ = class_to_type(cl);
                if typ == Type::Master {
                    let ghost v1 = self@;
                    self.frames.push(Frame { ce: Vec::new(), cc: None, cid: 0, in_middle: false });
                    proof {
                        assert(children_view(Seq::<Rc<Element>>::empty()) == Seq::<SpecElement>::empty());
                        assert(self@ =~= v1.push(empty_frame()));
                    }
                }
            },
            Event::Data(x) => {
                let ghost c = x@;
                let mut f = self.frames.pop().unwrap();
                f.cc = Some(content_of(x));
                self.frames.push(f);
                proof {
                    assert(self.frames@ =~= fr0.update(k as int, f));
                    assert(self@ =~= v0.update(k as int, FrameView { cc: Some(spec_content_of(c)), ..v0[k as int] }));
                }
            },
            Event::End(_) => {
                let len = self.frames.len();
                let mut j: usize = 0;
                while j + 1 < len && self.frames[j + 1].in_middle
                    invariant
                        len == self.frames@.len(),
                        self.frames@ == fr0,
                        self@ == v0,
                        j < len,
                        end_level(v0, 0) == end_level(v0, j as nat),
                    decreases len - j,
                {
                    assert(self@[j + 1].in_middle == self.frames@[j + 1].in_middle);
                    j = j + 1;
                }
                assert(j + 1 < len ==> self@[j + 1].in_middle == self.frames@[j + 1].in_middle);
                assert(end_level(v0, 0) == j);
                let mut fj;
                if j < k {
                    self.frames.truncate(j + 2);
                    let child = self.frames.pop().unwrap();
                    fj = self.frames.pop().unwrap();
                    assert(fr0[j + 1] == child);
                    assert(fr0[j as int] == fj);
                    fj.cc = Some(ElementContent::Master(child.ce));
                } else {
                    fj = self.frames.pop().unwrap();
                    assert(fr0[j as int] == fj);
                }
                assert(self.frames@ =~= fr0.subrange(0, j as int));
                let ghost cc = fj@.cc;
                proof {
                    let expected: Option<SpecElementContent> = if j < k {
                        Some(SpecElementContent::Master(v0[j + 1].ce))
                    } else {
                        v0[j as int].cc
                    };
                    assert(cc == expected);
                    assert(fj@.cid == v0[j as int].cid);
                    assert(fj@.ce == v0[j as int].ce);
                }
                let cl = id_to_class(fj.cid);
                match fj.cc.take() {
                    Some(elc) => {
                        let ghost ce0 = fj.ce@;
                        let el = Element { class: cl, content: elc };
                        fj.ce.push(Rc::new(el));
                        assert(fj.ce@.drop_last() =~= ce0);
                        assert(element_view(el) == SpecElement { class: spec_id_to_class(fj.cid), content: cc.unwrap() });
                        assert(children_view(fj.ce@) == children_view(ce0).push(element_view(el)));
                    },
                    None => {},
                }
                fj.in_middle = false;
                self.frames.push(fj);
                proof {
                    assert(self.frames@ =~= fr0.subrange(0, j as int).push(fj));
                    assert(v0.subrange(0, j as int) =~= fr0.subrange(0, j as int).map_values(|f: Frame| f@));
                    assert(self@ =~= spec_builder_event(v0, e@));
                }
            },
            Event::Resync => {},
        }
    }

    /// Whether any element has been built.
    pub fn has_captured(&self) -> (r: bool)
        ensures
            self.wf() ==> r == (self.spec_captured().len() > 0),
    {
        if self.frames.len() == 0 {
            return false;
        }
        proof {
            lemma_children_view(self.frames@[0].ce@);
        }
        self.frames[0].ce.len() > 0
    }

    /// The first element built, taken from the builder.
    pub fn into_first_captured(self) -> (r: Option<Rc<Element>>)
        ensures
            self.wf() && self.spec_captured().len() > 0 ==> r is Some && element_view(*r.unwrap())
                == self.spec_captured()[0],
            !(self.wf() && self.spec_captured().len() > 0) ==> r is None,
    {
        if self.frames.len() == 0 {
            return None;
        }
        let mut frames = self.frames;
        let mut f = frames.swap_remove(0);
        proof {
            lemma_children_view(f.ce@);
        }
        if f.ce.len() == 0 {
            None
        } else {
            Some(f.ce.swap_remove(0))
        }
    }
}

impl EventsHandler for Builder {
    /// A well-formed builder takes in the event (see `spec_builder_event`).
    open spec fn takes(&self, e: SpecEvent, next: &Self) -> bool {
        self.wf() ==> next.wf() && next@ == spec_builder_event(self@, e)
    }

    /// Takes in one event (see `spec_builder_event`).
    fn event(&mut self, e: Event)
        ensures
            old(self).wf() ==> final(self).wf() && final(self)@ == spec_builder_event(old(self)@, e@),
    {
        if self.frames.len() >= 1 {
            self.handle(e);
        }
    }
}

impl Default for Builder {
    fn default() -> (b: Builder)
        ensures
            b.wf(),
            b@ == seq![empty_frame()],
    {
        Builder::new()
    }
}

} // verus!
