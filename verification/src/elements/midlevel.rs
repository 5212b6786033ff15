//! Events to events and element trees.

use vstd::prelude::*;
use std::rc::Rc;
use super::{Element, SpecElement, el_bin, element_view};
use super::database::{Class, id_to_class, class_to_id, spec_id_to_class, spec_class_to_id};
use super::parser::{Event, EventsHandler, SimpleContent};
use super::parser::machine::SpecEvent;
use super::builder::{Builder, FrameView, spec_builder_event, empty_frame};
use super::generator::{generate, generate_ebml_number, EbmlNumberMode, is_generatable, spec_generate,
    spec_ebml_number_bytes, generatable};

verus! {

/// What the mid-level parser announces.
#[derive(Debug)]
pub enum MidlevelEvent {
    /// An element that is not built starts.
    EnterElement(Class),
    /// An element that is not built ends.
    LeaveElement(Class),
    /// An element built whole (after a `Build` answer).
    Element(Rc<Element>),
    /// The payload of an element that is not built.
    Content(SimpleContent),
    Resync,
}

/// How to handle an element that starts.
#[derive(Debug, Eq, PartialEq, Clone, Copy, Structural)]
pub enum WhatToDo {
    /// Build the element tree of this element.
    Build,
    /// Continue delivering events without starting the builder.
    GoOn,
}

/// Receives the events of a mid-level parser and tells it what to build.
pub trait MidlevelEventHandler {
    /// `next` is what this handler may become on taking `e`. A handler that
    /// says nothing of itself may become anything.
    open spec fn takes(&self, e: MidlevelEvent, next: &Self) -> bool {
        true
    }

    /// `next` is what this handler may become on answering `r` for an
    /// element of class `c`. A handler that says nothing of itself may
    /// answer anything and become anything.
    open spec fn answers(&self, c: Class, r: WhatToDo, next: &Self) -> bool {
        true
    }

    /// Whether the handler can be told that an element of class `c` begins
    /// without being built. Every class can, unless a handler says less.
    open spec fn enters(&self, c: Class) -> bool {
        true
    }

    fn event(&mut self, e: MidlevelEvent)
        requires
            e matches MidlevelEvent::EnterElement(c) ==> old(self).enters(c),
        ensures
            old(self).takes(e, final(self)),
    ;

    fn how_to_handle(&mut self, c: Class) -> (r: WhatToDo)
        ensures
            old(self).answers(c, r, final(self)),
            r == WhatToDo::GoOn ==> final(self).enters(c),
    ;
}

/// What a mid-level parser that was building `building` hands its handler
/// `h` on the parser event `e`, `next` being the handler after it and
/// `nb` what the parser builds after it. When nothing is being built, a
/// `Begin` asks the handler how to handle the element's class: on `GoOn`
/// the handler takes `EnterElement`, on `Build` the tree starts with the
/// `Begin`; `Data`, `End` and `Resync` become `Content`, `LeaveElement`
/// and `Resync`. While an element is being built, the handler takes the
/// element once the builder has built it, and `Resync` (which drops the
/// builder); otherwise it is left as it was.
pub open spec fn midlevel_hands<H: MidlevelEventHandler>(
    building: Option<Seq<FrameView>>,
    h: H,
    e: Event,
    next: H,
    nb: Option<Seq<FrameView>>,
) -> bool {
    match building {
        None => match e {
            Event::Begin(x) => exists|mid: H, r: WhatToDo| #[trigger] h.answers(spec_id_to_class(x.id), r, &mid)
                && (r == WhatToDo::GoOn ==> mid.takes(MidlevelEvent::EnterElement(spec_id_to_class(x.id)), &next)
                    && nb is None)
                && (r == WhatToDo::Build ==> next == mid && nb == Some(spec_builder_event(seq![empty_frame()], e@))),
            Event::Data(x) => h.takes(MidlevelEvent::Content(x), &next),
            Event::End(x) => h.takes(MidlevelEvent::LeaveElement(spec_id_to_class(x.id)), &next),
            Event::Resync => h.takes(MidlevelEvent::Resync, &next),
        },
        Some(v) => match e {
            Event::Resync => h.takes(MidlevelEvent::Resync, &next),
            Event::End(_) => if spec_builder_event(v, e@)[0].ce.len() > 0 {
                exists|el: Rc<Element>| #[trigger] h.takes(MidlevelEvent::Element(el), &next)
                    && element_view(*el) == spec_builder_event(v, e@)[0].ce[0]
            } else {
                next == h
            },
            _ => next == h,
        },
    }
}

/// The mid-level parser builds the elements that its handler asks for and
/// passes the events of the others on, so that the headers of segments or
/// clusters can be read without holding whole segments in memory.
pub struct MidlevelParser<H: MidlevelEventHandler> {
    h: H,
    b: Option<Builder>,
}

impl<H: MidlevelEventHandler> MidlevelParser<H> {
    /// The tree being built, if an element is being built.
    pub closed spec fn building(&self) -> Option<Seq<FrameView>> {
        match self.b {
            Some(b) => Some(b@),
            None => None,
        }
    }

    /// The handler.
    pub closed spec fn handler(&self) -> H {
        self.h
    }

    /// A builder, when there is one, is well formed.
    pub closed spec fn wf(&self) -> bool {
        self.b matches Some(b) ==> b.wf()
    }

    pub fn new(h_: H) -> (p: MidlevelParser<H>)
        ensures
            p.wf(),
            p.building() is None,
            p.handler() == h_,
    {
        MidlevelParser { h: h_, b: None }
    }

    pub fn borrow_handler(&self) -> (h: &H)
        ensures
            *h == self.handler(),
    {
        &self.h
    }

    pub fn borrow_handler_mut(&mut self) -> (h: &mut H)
        ensures
            *h == old(self).handler(),
            final(self).handler() == *final(h),
            final(self).building() == old(self).building(),
            final(self).wf() == old(self).wf(),
    {
        &mut self.h
    }

    pub fn into_handler(self) -> (h: H)
        ensures
            h == self.handler(),
    {
        self.h
    }
}

/// What the tree being built becomes after an event, as far as it does not
/// depend on the handler: events go to the builder while there is one; the
/// builder goes away when it has built an element (handed to the handler)
/// or on `Resync`.
pub open spec fn midlevel_building_after(building: Option<Seq<FrameView>>, e: Event) -> Option<Seq<FrameView>> {
    midlevel_step(building, e@)
}

/// What the tree being built becomes after an event (see
/// `midlevel_building_after`), for the value of the event.
pub open spec fn midlevel_step(building: Option<Seq<FrameView>>, e: SpecEvent) -> Option<Seq<FrameView>> {
    match building {
        Some(v) => match e {
            SpecEvent::Resync => None,
            SpecEvent::End(_) => {
                let v2 = spec_builder_event(v, e);
                if v2[0].ce.len() > 0 {
                    None
                } else {
                    Some(v2)
                }
            },
            _ => Some(spec_builder_event(v, e)),
        },
        None => None,
    }
}

/// A `Resync` drops whatever was being built, whatever came before it: after
/// any events that end with a `Resync` nothing is being built, so the next
/// `Begin` is put to the handler (see `midlevel_hands`).
pub proof fn lemma_resync_drops_build(building: Option<Seq<FrameView>>, evs: Seq<SpecEvent>)
    ensures
        midlevel_step(building, SpecEvent::Resync) is None,
        midlevel_run(building, evs.push(SpecEvent::Resync)) is None,
    decreases evs.len(),
{
    if evs.len() == 0 {
        assert(evs.push(SpecEvent::Resync) =~= seq![SpecEvent::Resync]);
        assert(seq![SpecEvent::Resync].subrange(1, 1) =~= Seq::<SpecEvent>::empty());
        assert(midlevel_run(midlevel_step(building, SpecEvent::Resync), Seq::<SpecEvent>::empty())
            == midlevel_step(building, SpecEvent::Resync));
    } else {
        assert(evs.push(SpecEvent::Resync)[0] == evs[0]);
        assert(evs.push(SpecEvent::Resync).subrange(1, (evs.len() + 1) as int)
            =~= evs.subrange(1, evs.len() as int).push(SpecEvent::Resync));
        lemma_resync_drops_build(midlevel_step(building, evs[0]), evs.subrange(1, evs.len() as int));
    }
}

/// What is built over the events `evs`, in order (see `midlevel_step`).
pub open spec fn midlevel_run(building: Option<Seq<FrameView>>, evs: Seq<SpecEvent>) -> Option<Seq<FrameView>>
    decreases evs.len(),
{
    if evs.len() == 0 {
        building
    } else {
        midlevel_run(midlevel_step(building, evs[0]), evs.subrange(1, evs.len() as int))
    }
}

impl<H: MidlevelEventHandler> EventsHandler for MidlevelParser<H> {
    /// A well-formed mid-level parser takes an event by handing its handler
    /// what `midlevel_hands` says and building on as `midlevel_step` says.
    open spec fn takes(&self, e: SpecEvent, next: &Self) -> bool {
        self.wf() ==> next.wf() && exists|ev: Event| #[trigger] midlevel_hands(
            self.building(),
            self.handler(),
            ev,
            next.handler(),
            next.building(),
        ) && ev@ == e && (!(self.building() is None && ev is Begin) ==> next.building() == midlevel_step(
            self.building(),
            e,
        ))
    }

    /// Routes one event. When no element is being built, a `Begin` asks the
    /// handler, which either gets `EnterElement` or has the element built
    /// (`Build`): then the tree starts with the `Begin`.
    fn event(&mut self, e: Event)
        ensures
            old(self).wf() ==> final(self).wf(),
            old(self).wf() && !(old(self).building() is None && e is Begin) ==> final(self).building()
                == midlevel_building_after(old(self).building(), e),
            old(self).wf() && old(self).building() is None && e is Begin ==> (final(self).building() is None
                || final(self).building() == Some(spec_builder_event(seq![empty_frame()], e@))),
            old(self).wf() ==> midlevel_hands(old(self).building(), old(self).handler(), e, final(self).handler(),
                final(self).building()),
            e is Resync ==> final(self).building() is None,
    {
        let ghost e0 = e;
        match e {
            Event::Begin(x) => {
                if let Some(ref mut b) = self.b {
                    b.event(Event::Begin(x));
                } else {
                    let klass = id_to_class(x.id);
                    match self.h.how_to_handle(klass) {
                        WhatToDo::GoOn => {
                            self.h.event(MidlevelEvent::EnterElement(klass));
                        },
                        WhatToDo::Build => {
                            let mut b = Builder::new();
                            b.event(Event::Begin(x));
                            self.b = Some(b);
                        },
                    }
                }
            },
            Event::Data(x) => {
                if let Some(ref mut b) = self.b {
                    b.event(Event::Data(x));
                } else {
                    self.h.event(MidlevelEvent::Content(x));
                }
            },
            Event::End(x) => {
                if let Some(mut b) = self.b.take() {
                    b.event(Event::End(x));
                    if b.has_captured() {
                        if let Some(element) = b.into_first_captured() {
                            self.h.event(MidlevelEvent::Element(element));
                        }
                    } else {
                        self.b = Some(b);
                    }
                } else {
                    self.h.event(MidlevelEvent::LeaveElement(id_to_class(x.id)));
                }
            },
            Event::Resync => {
                self.b = None;
                self.h.event(MidlevelEvent::Resync);
            },
        }
        proof {
            if old(self).wf() {
                assert(midlevel_hands(old(self).building(), old(self).handler(), e0, self.handler(), self.building()));
            }
        }
    }
}

/// Receives bytes.
pub trait ByteSink {
    /// The bytes received so far, in order.
    spec fn received(&self) -> Seq<u8>;

    /// Receives the bytes after those received before.
    fn write_bytes(&mut self, bytes: &[u8])
        ensures
            final(self).received() == old(self).received() + bytes@,
    ;
}

impl ByteSink for Vec<u8> {
    /// The bytes of the vector.
    open spec fn received(&self) -> Seq<u8> {
        self@
    }

    /// Appends the bytes.
    fn write_bytes(&mut self, bytes: &[u8])
        ensures
            final(self)@ == old(self)@ + bytes@,
    {
        let ghost s0 = self@;
        self.extend_from_slice(bytes);
        assert(self@ =~= s0 + bytes@);
    }
}

/// Serializes events back into a Matroska file. The segment's size is left
/// unknown and a `Void` element follows its header; the elements that are
/// built (all but the segment) are written whole.
pub struct MidlevelEventsToFile<W> {
    w: W,
}

/// The bytes of a `Void` element holding `d`.
pub open spec fn void_bytes(d: Seq<u8>) -> Seq<u8> {
    spec_ebml_number_bytes(spec_class_to_id(Class::Void), EbmlNumberMode::Identifier)
        + spec_ebml_number_bytes(d.len() as u64, EbmlNumberMode::Unsigned) + d
}

/// The text of the `Void` element written in place of a resync.
pub open spec fn resync_note() -> Seq<u8> {
    seq![10u8, 72, 101, 114, 101, 32, 119, 97, 115, 32, 114, 101, 115, 121, 110, 99, 10]
}

/// What `MidlevelEventsToFile` writes for an event: the segment's header
/// with an unknown size followed by 32 zero bytes in a `Void`, an element
/// built whole, or a `Void` noting a resync; nothing for the rest. (The
/// writer is never told of entering any element but a segment, see its
/// `enters`. An element that cannot be generated, having no ID or holding a
/// double-precision float, gives nothing here: writing a double as the
/// four bytes of a single-precision float would need floating-point
/// rounding, which this library does not do.)
pub open spec fn spec_event_bytes(e: MidlevelEvent) -> Seq<u8> {
    match e {
        MidlevelEvent::EnterElement(klass) => if klass == Class::Segment {
            spec_ebml_number_bytes(spec_class_to_id(Class::Segment), EbmlNumberMode::Identifier) + seq![0xFFu8]
                + void_bytes(Seq::new(32, |i: int| 0u8))
        } else {
            Seq::empty()
        },
        MidlevelEvent::Element(x) => if generatable(x@) {
            spec_generate(x@)
        } else {
            Seq::empty()
        },
        MidlevelEvent::Resync => void_bytes(resync_note()),
        _ => Seq::empty(),
    }
}

/// The bytes of a `Void` element holding `d`.
fn void_element(d: Vec<u8>) -> (r: Vec<u8>)
    ensures
        r@ == void_bytes(d@),
{
    let e = el_bin(Class::Void, d);
    generate(&e)
}

/// What `MidlevelEventsToFile` writes for an event (see `spec_event_bytes`).
pub fn event_bytes(e: &MidlevelEvent) -> (r: Vec<u8>)
    ensures
        r@ == spec_event_bytes(*e),
{
    match e {
        MidlevelEvent::EnterElement(klass) => {
            if *klass == Class::Segment {
                let mut r = generate_ebml_number(class_to_id(*klass), EbmlNumberMode::Identifier);
                r.push(0xFF);
                let zeros: Vec<u8> = vec![0; 32];
                assert(zeros@ =~= Seq::new(32, |i: int| 0u8));
                let mut v = void_element(zeros);
                r.append(&mut v);
                r
            } else {
                Vec::new()
            }
        },
        MidlevelEvent::Element(x) => {
            if is_generatable(x) {
                generate(x)
            } else {
                Vec::new()
            }
        },
        MidlevelEvent::Resync => {
            let note: Vec<u8> = vec![10u8, 72, 101, 114, 101, 32, 119, 97, 115, 32, 114, 101, 115, 121, 110, 99, 10];
            assert(note@ =~= resync_note());
            void_element(note)
        },
        _ => Vec::new(),
    }
}

impl<W> MidlevelEventsToFile<W> {
    /// The sink written to.
    pub closed spec fn file(&self) -> W {
        self.w
    }

    pub fn new(w_: W) -> (r: Self)
        ensures
            r.file() == w_,
    {
        MidlevelEventsToFile { w: w_ }
    }

    pub fn borrow_file(&self) -> (w: &W)
        ensures
            *w == self.file(),
    {
        &self.w
    }

    pub fn borrow_file_mut(&mut self) -> (w: &mut W)
        ensures
            *w == old(self).file(),
            final(self).file() == *final(w),
    {
        &mut self.w
    }

    pub fn into_file(self) -> (w: W)
        ensures
            w == self.file(),
    {
        self.w
    }
}

impl<W: ByteSink> MidlevelEventHandler for MidlevelEventsToFile<W> {
    /// The writer takes an event by writing its bytes (see `spec_event_bytes`).
    open spec fn takes(&self, e: MidlevelEvent, next: &Self) -> bool {
        next.file().received() == self.file().received() + spec_event_bytes(e)
    }

    /// The writer passes the segment through and has every other element
    /// built; answering changes nothing.
    open spec fn answers(&self, c: Class, r: WhatToDo, next: &Self) -> bool {
        &&& r == (if c == Class::Segment { WhatToDo::GoOn } else { WhatToDo::Build })
        &&& *next == *self
    }

    /// Only a segment is entered without being built.
    open spec fn enters(&self, c: Class) -> bool {
        c == Class::Segment
    }

    /// The segment is passed through, every other element is built.
    fn how_to_handle(&mut self, klass: Class) -> (r: WhatToDo)
        ensures
            r == (if klass == Class::Segment { WhatToDo::GoOn } else { WhatToDo::Build }),
    {
        if klass == Class::Segment {
            WhatToDo::GoOn
        } else {
            WhatToDo::Build
        }
    }

    /// Writes what `event_bytes` gives (when it is not empty).
    fn event(&mut self, e: MidlevelEvent)
        ensures
            final(self).file().received() == old(self).file().received() + spec_event_bytes(e),
    {
        let bytes = event_bytes(&e);
        if bytes.len() > 0 {
            self.w.write_bytes(bytes.as_slice());
        } else {
            assert(self.w.received() + bytes@ =~= self.w.received());
        }
    }
}

} // verus!
