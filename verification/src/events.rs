//! Mid-level events to Matroska events: frames, segment information, tracks.

use vstd::prelude::*;
use std::rc::Rc;
use bytes::{Buf, IntoBuf};
use crate::elements::{Element, SpecElement};
use crate::elements::midlevel::{MidlevelEventHandler, WhatToDo, MidlevelEvent};
use crate::elements::database::Class;
use crate::elements::parser::{SimpleContent, BinaryChunkStatus};

verus! {

/// A frame of a track.
#[derive(Debug, Eq, PartialEq, Hash)]
pub struct MatroskaFrame {
    pub timecode_nanoseconds: u64,
    pub track_number: usize,
    /// Outer vector: lacing; inner vector: bytes.
    pub buffers: Vec<Vec<u8>>,
}

/// Receives what the demuxer finds.
pub trait MatroskaEventHandler {
    /// `next` is what this handler may become on taking the frame `f`. A
    /// handler that says nothing of itself may become anything.
    open spec fn takes_frame(&self, f: MatroskaFrame, next: &Self) -> bool {
        true
    }

    fn frame_encountered(&mut self, f: MatroskaFrame)
        ensures
            old(self).takes_frame(f, final(self)),
    ;

    /// `next` is what this handler may become on taking the segment's
    /// `Tracks` element `e`. A handler that says nothing of itself may become
    /// anything.
    open spec fn takes_tracks(&self, e: Rc<Element>, next: &Self) -> bool {
        true
    }

    fn segment_tracks(&mut self, e: &Rc<Element>)
        ensures
            old(self).takes_tracks(*e, final(self)),
    ;

    /// Takes the segment's `Info` element; by default, does nothing. (No
    /// contract is given: one that this default meets would bind every
    /// handler that replaces it.)
    fn segment_info(&mut self, e: &Rc<Element>) {
    }
}

/// What the payload about to come is for.
#[derive(Debug, Eq, PartialEq, Clone, Copy, Structural)]
pub enum WhatToAwait {
    Block,
    TimecodeScale,
    ClusterTimecode,
    Nothing,
}

/// Turns mid-level events into frames.
pub struct MatroskaDemuxer<H: MatroskaEventHandler> {
    h: H,
    timecode_scale: u64,
    last_cluster_timecode: u64,
    a: WhatToAwait,
    b: Vec<u8>,
}

/// The state of a demuxer apart from its handler.
pub struct DemuxView {
    pub timecode_scale: u64,
    pub last_cluster_timecode: u64,
    pub awaiting: WhatToAwait,
    /// The bytes of the block read so far.
    pub block: Seq<u8>,
}

/// `bytes::Buf::get_u8` on a cursor at `pos` over `data`: the byte there.
#[verifier::external_body]
fn buf_get_u8(data: &[u8], pos: usize) -> (r: u8)
    requires
        pos < data.len(),
    ensures
        r == data@[pos as int],
{
    let mut b = data.into_buf();
    b.advance(pos);
    b.get_u8()
}

/// `bytes::Buf::get_i16_be` on a cursor at `pos` over `data`: the
/// big-endian two's complement number in the two bytes there.
#[verifier::external_body]
fn buf_get_i16_be(data: &[u8], pos: usize) -> (r: i16)
    requires
        pos + 2 <= data.len(),
    ensures
        r as int == spec_i16_be(data@[pos as int], data@[pos + 1]),
{
    let mut b = data.into_buf();
    b.advance(pos);
    b.get_i16_be()
}

/// `bytes::Buf::collect` into a `Vec<u8>`, on a cursor at `pos` over
/// `data`: the bytes from there on.
#[verifier::external_body]
fn buf_collect(data: &[u8], pos: usize) -> (r: Vec<u8>)
    requires
        pos <= data.len(),
    ensures
        r@ == data@.subrange(pos as int, data@.len() as int),
{
    let mut b = data.into_buf();
    b.advance(pos);
    b.collect()
}

/// The big-endian two's complement value of two bytes.
pub open spec fn spec_i16_be(hi: u8, lo: u8) -> int {
    if hi < 0x80 {
        hi * 256 + lo
    } else {
        hi * 256 + lo - 0x10000
    }
}

/// The time of a frame in nanoseconds: the cluster's timecode plus the
/// block's (modulo 2^64), times the timecode scale, or `u64::MAX` when the
/// product does not fit. The product is exact. (Multiplying in double
/// precision instead, as floating-point code would, rounds products above
/// 2^53 to a multiple of a power of two; this library holds no floats.)
pub open spec fn spec_frame_time(cluster_timecode: u64, block_timecode: int, timecode_scale: u64) -> u64 {
    let t = (cluster_timecode + block_timecode) % 0x10000000000000000;
    if t * timecode_scale <= u64::MAX {
        (t * timecode_scale) as u64
    } else {
        u64::MAX
    }
}

/// The frame that a block holds: its track number (one byte with the high
/// bit set; larger track numbers are not supported), its 16-bit timecode
/// relative to the cluster, a flags byte, then the data.
pub open spec fn spec_block_frame(block: Seq<u8>, cluster_timecode: u64, timecode_scale: u64) -> Option<(u64, usize, Seq<u8>)> {
    if block.len() < 4 || block[0] < 0x80 {
        None
    } else {
        Some((
            spec_frame_time(cluster_timecode, spec_i16_be(block[1], block[2]), timecode_scale),
            (block[0] - 0x80) as usize,
            block.subrange(4, block.len() as int),
        ))
    }
}

/// The timecode of a block relative to its cluster: the signed big-endian
/// 16-bit number in its bytes 1 and 2, from -32768 to 32767.
pub open spec fn relative_timecode(hi: u8, lo: u8) -> int {
    hi as int * 256 + lo as int - (if hi >= 0x80 { 0x10000int } else { 0int })
}

/// A block of a track numbered below 128, whose time in the cluster does
/// not fall below zero and whose time in nanoseconds fits in `u64`, holds a
/// frame of that track: its time is the cluster's timecode plus the
/// block's relative timecode (bytes 1 and 2, see `relative_timecode`),
/// times the timecode scale; its data are the bytes after the flags byte.
pub proof fn lemma_block_frame(block: Seq<u8>, cluster_timecode: u64, timecode_scale: u64)
    requires
        block.len() >= 4,
        block[0] >= 0x80,
        0 <= cluster_timecode + relative_timecode(block[1], block[2]) <= u64::MAX,
        (cluster_timecode + relative_timecode(block[1], block[2])) * timecode_scale <= u64::MAX,
    ensures
        spec_block_frame(block, cluster_timecode, timecode_scale) == Some((
            ((cluster_timecode + relative_timecode(block[1], block[2])) * timecode_scale) as u64,
            (block[0] - 0x80) as usize,
            block.subrange(4, block.len() as int),
        )),
{
    let rel = relative_timecode(block[1], block[2]);
    assert(spec_i16_be(block[1], block[2]) == rel);
    vstd::arithmetic::div_mod::lemma_small_mod((cluster_timecode + rel) as nat, 0x10000000000000000);
}

/// The frame in a block (see `spec_block_frame` and `lemma_block_frame`).
pub fn frame_from_block(block: &[u8], cluster_timecode: u64, timecode_scale: u64) -> (r: Option<MatroskaFrame>)
    ensures
        match spec_block_frame(block@, cluster_timecode, timecode_scale) {
            None => r is None,
            Some((t, n, data)) => r matches Some(f) && f.timecode_nanoseconds == t && f.track_number == n
                && f.buffers@.len() == 1 && f.buffers@[0]@ == data,
        },
        block@.len() >= 4 && block@[0] >= 0x80
            && 0 <= cluster_timecode + relative_timecode(block@[1], block@[2]) <= u64::MAX
            && (cluster_timecode + relative_timecode(block@[1], block@[2])) * timecode_scale <= u64::MAX
            ==> (r matches Some(f) && f.timecode_nanoseconds
                == (cluster_timecode + relative_timecode(block@[1], block@[2])) * timecode_scale
                && f.track_number == block@[0] - 0x80),
{
    proof {
        if block@.len() >= 4 && block@[0] >= 0x80
            && 0 <= cluster_timecode + relative_timecode(block@[1], block@[2]) <= u64::MAX
            && (cluster_timecode + relative_timecode(block@[1], block@[2])) * timecode_scale <= u64::MAX {
            lemma_block_frame(block@, cluster_timecode, timecode_scale);
        }
    }
    if block.len() < 1 {
        return None;
    }
    let tn_ = buf_get_u8(block, 0);
    if tn_ & 0x80 != 0x80 {
        assert(tn_ & 0x80 != 0x80 ==> tn_ < 0x80) by (bit_vector);
        return None;
    }
    assert(tn_ & 0x80 == 0x80 ==> tn_ >= 0x80 && tn_ & 0x7F == tn_ - 0x80) by (bit_vector);
    if block.len() < 4 {
        return None;
    }
    let tn = tn_ & 0x7F;
    let ts = buf_get_i16_be(block, 1);
    let _flags = buf_get_u8(block, 3);
    let t = cluster_timecode.wrapping_add_signed(ts as i64);
    let ts_nano = match t.checked_mul(timecode_scale) {
        Some(v) => v,
        None => u64::MAX,
    };
    let remaining = buf_collect(block, 4);
    let f = MatroskaFrame { timecode_nanoseconds: ts_nano, track_number: tn as usize, buffers: vec![remaining] };
    Some(f)
}

/// What a payload is awaited for after an element starts.
pub open spec fn spec_await_for(c: Class) -> WhatToAwait {
    match c {
        Class::SimpleBlock => WhatToAwait::Block,
        Class::Block => WhatToAwait::Block,
        Class::TimecodeScale => WhatToAwait::TimecodeScale,
        Class::Timecode => WhatToAwait::ClusterTimecode,
        _ => WhatToAwait::Nothing,
    }
}

/// The demuxer's state after an event: an element that starts clears the
/// block and says what its payload is for; a timecode scale or cluster
/// timecode payload is kept; a block payload is added to the block.
pub open spec fn spec_demux_after(s: DemuxView, e: MidlevelEvent) -> DemuxView {
    match e {
        MidlevelEvent::EnterElement(c) => DemuxView { awaiting: spec_await_for(c), block: Seq::empty(), ..s },
        MidlevelEvent::Content(x) => match (s.awaiting, x) {
            (WhatToAwait::TimecodeScale, SimpleContent::Unsigned(v)) => DemuxView { timecode_scale: v, ..s },
            (WhatToAwait::ClusterTimecode, SimpleContent::Unsigned(v)) => DemuxView { last_cluster_timecode: v, ..s },
            (WhatToAwait::Block, SimpleContent::Binary(b, _)) => DemuxView { block: s.block + b@, ..s },
            _ => s,
        },
        _ => s,
    }
}

/// Entering an element that is neither a block nor a timecode scale nor a
/// cluster timecode makes the demuxer await nothing: whatever payload comes
/// next changes neither the cluster timecode nor the timecode scale nor the
/// block.
pub proof fn lemma_other_elements_change_nothing(s: DemuxView, c: Class, x: SimpleContent)
    requires
        c != Class::SimpleBlock,
        c != Class::Block,
        c != Class::TimecodeScale,
        c != Class::Timecode,
    ensures
        spec_demux_after(s, MidlevelEvent::EnterElement(c)).awaiting == WhatToAwait::Nothing,
        ({
            let s1 = spec_demux_after(s, MidlevelEvent::EnterElement(c));
            let s2 = spec_demux_after(s1, MidlevelEvent::Content(x));
            &&& s2.last_cluster_timecode == s.last_cluster_timecode
            &&& s2.timecode_scale == s.timecode_scale
            &&& s2.block == Seq::<u8>::empty()
        }),
{
}

/// A timecode element's unsigned payload becomes the cluster timecode, and
/// a timecode scale element's the timecode scale; nothing else changes.
pub proof fn lemma_timecodes_are_kept(s: DemuxView, v: u64)
    ensures
        ({
            let s1 = spec_demux_after(spec_demux_after(s, MidlevelEvent::EnterElement(Class::Timecode)), MidlevelEvent::Content(SimpleContent::Unsigned(v)));
            s1.last_cluster_timecode == v && s1.timecode_scale == s.timecode_scale
        }),
        ({
            let s1 = spec_demux_after(spec_demux_after(s, MidlevelEvent::EnterElement(Class::TimecodeScale)), MidlevelEvent::Content(SimpleContent::Unsigned(v)));
            s1.timecode_scale == v && s1.last_cluster_timecode == s.last_cluster_timecode
        }),
{
}

impl<H: MatroskaEventHandler> MatroskaDemuxer<H> {
    /// The demuxer's state apart from its handler.
    pub closed spec fn state(&self) -> DemuxView {
        DemuxView {
            timecode_scale: self.timecode_scale,
            last_cluster_timecode: self.last_cluster_timecode,
            awaiting: self.a,
            block: self.b@,
        }
    }

    /// The handler.
    pub closed spec fn handler(&self) -> H {
        self.h
    }

    /// A demuxer that hands what it finds to `h`, with a timecode scale of
    /// one millisecond.
    pub fn new(h: H) -> (d: Self)
        ensures
            d.handler() == h,
            d.state() == (DemuxView {
                timecode_scale: 1000000,
                last_cluster_timecode: 0,
                awaiting: WhatToAwait::Nothing,
                block: Seq::empty(),
            }),
    {
        MatroskaDemuxer { h, timecode_scale: 1000_000, last_cluster_timecode: 0, a: WhatToAwait::Nothing, b: vec![] }
    }

    /// Hands the frame in the block to the handler (a block that holds
    /// none is passed over, and the handler is left as it was).
    fn process_frame(&mut self)
        ensures
            final(self).state() == old(self).state(),
            match spec_block_frame(old(self).state().block, old(self).state().last_cluster_timecode, old(self).state().timecode_scale) {
                None => final(self).handler() == old(self).handler(),
                Some((t, n, data)) => exists|f: MatroskaFrame| #[trigger] old(self).handler().takes_frame(f, &final(self).handler())
                    && f.timecode_nanoseconds == t && f.track_number == n
                    && f.buffers@.len() == 1 && f.buffers@[0]@ == data,
            },
    {
        match frame_from_block(self.b.as_slice(), self.last_cluster_timecode, self.timecode_scale) {
            Some(f) => {
                let ghost g = f;
                self.h.frame_encountered(f);
                assert(old(self).handler().takes_frame(g, &self.handler()));
            },
            None => {},
        }
    }
}

/// What a demuxer in state `s` hands its handler `h` on the event `e`,
/// `next` being the handler after it. The last (or only) chunk of a block
/// that is awaited completes the block: the handler takes the frame in it,
/// or stays as it was when the block holds none. A built `Tracks` element
/// goes to the handler's `segment_tracks`; a built `Info` element goes to its
/// `segment_info`, of which nothing is said (see there). Any other event
/// leaves the handler as it was.
pub open spec fn demux_hands<H: MatroskaEventHandler>(s: DemuxView, h: H, e: MidlevelEvent, next: H) -> bool {
    match e {
        MidlevelEvent::Content(SimpleContent::Binary(b, st)) => if s.awaiting == WhatToAwait::Block
            && (st == BinaryChunkStatus::Last || st == BinaryChunkStatus::Full) {
            match spec_block_frame(s.block + b@, s.last_cluster_timecode, s.timecode_scale) {
                None => next == h,
                Some((t, n, data)) => exists|f: MatroskaFrame| #[trigger] h.takes_frame(f, &next)
                    && f.timecode_nanoseconds == t && f.track_number == n
                    && f.buffers@.len() == 1 && f.buffers@[0]@ == data,
            }
        } else {
            next == h
        },
        MidlevelEvent::Element(el) => if (*el).class == Class::Tracks {
            h.takes_tracks(el, &next)
        } else if (*el).class == Class::Info {
            true
        } else {
            next == h
        },
        _ => next == h,
    }
}

impl<H: MatroskaEventHandler> MidlevelEventHandler for MatroskaDemuxer<H> {
    /// Updates the state (see `spec_demux_after`); hands a finished block's
    /// frame, and the segment's `Info` and `Tracks` elements, to the handler
    /// (see `demux_hands`).
    fn event(&mut self, e: MidlevelEvent)
        ensures
            final(self).state() == spec_demux_after(old(self).state(), e),
            e matches MidlevelEvent::EnterElement(c) ==> final(self).state().block == Seq::<u8>::empty()
                && final(self).state().last_cluster_timecode == old(self).state().last_cluster_timecode
                && final(self).state().timecode_scale == old(self).state().timecode_scale
                && (c != Class::SimpleBlock && c != Class::Block && c != Class::TimecodeScale && c != Class::Timecode
                    ==> final(self).state().awaiting == WhatToAwait::Nothing),
            demux_hands(old(self).state(), old(self).handler(), e, final(self).handler()),
    {
        let ghost e0 = e;
        match e {
            MidlevelEvent::EnterElement(c) => {
                self.b.clear();
                match c {
                    Class::SimpleBlock => self.a = WhatToAwait::Block,
                    Class::Block => self.a = WhatToAwait::Block,
                    Class::TimecodeScale => self.a = WhatToAwait::TimecodeScale,
                    Class::Timecode => self.a = WhatToAwait::ClusterTimecode,
                    _ => self.a = WhatToAwait::Nothing,
                }
            },
            MidlevelEvent::Content(x) => {
                match self.a {
                    WhatToAwait::TimecodeScale => {
                        match x {
                            SimpleContent::Unsigned(xx) => {
                                self.timecode_scale = xx;
                            },
                            _ => {},
                        }
                    },
                    WhatToAwait::ClusterTimecode => {
                        match x {
                            SimpleContent::Unsigned(xx) => {
                                self.last_cluster_timecode = xx;
                            },
                            _ => {},
                        }
                    },
                    WhatToAwait::Block => {
                        match x {
                            SimpleContent::Binary(xx, status) => {
                                let ghost b0 = self.b@;
                                self.b.extend_from_slice(xx.as_slice());
                                assert(self.b@ =~= b0 + xx@);
                                match status {
                                    BinaryChunkStatus::Last | BinaryChunkStatus::Full => {
                                        self.process_frame();
                                    },
                                    _ => {},
                                }
                            },
                            _ => {},
                        }
                    },
                    _ => {},
                }
            },
            MidlevelEvent::LeaveElement(_) => {},
            MidlevelEvent::Element(e) => {
                match e.class {
                    Class::Info => self.h.segment_info(&e),
                    Class::Tracks => self.h.segment_tracks(&e),
                    _ => {},
                }
            },
            MidlevelEvent::Resync => {},
        }
    }

    /// The segment's `Info` and `Tracks` are built; the rest is passed on.
    fn how_to_handle(&mut self, c: Class) -> (r: WhatToDo)
        ensures
            r == (if c == Class::Info || c == Class::Tracks { WhatToDo::Build } else { WhatToDo::GoOn }),
    {
        match c {
            Class::Info => WhatToDo::Build,
            Class::Tracks => WhatToDo::Build,
            _ => WhatToDo::GoOn,
        }
    }
}

} // verus!
