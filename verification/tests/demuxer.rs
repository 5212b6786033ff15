use mkv::elements::database::Class;
use mkv::elements::generator::generate;
use mkv::elements::midlevel::{MidlevelEvent, MidlevelEventHandler, MidlevelParser, WhatToDo};
use mkv::elements::parser::{new, Parser, SimpleContent, BinaryChunkStatus};
use mkv::elements::templates::{cluster_with_one_simple_block, segment_info};
use mkv::elements::{el, el_uns, Element};
use mkv::events::{frame_from_block, MatroskaDemuxer, MatroskaEventHandler, MatroskaFrame};
use std::cell::RefCell;
use std::rc::Rc;

#[derive(Default)]
struct Seen {
    frames: Vec<MatroskaFrame>,
    infos: usize,
    tracks: usize,
}

#[derive(Default, Clone)]
struct Frames {
    seen: Rc<RefCell<Seen>>,
}

impl MatroskaEventHandler for Frames {
    fn frame_encountered(&mut self, f: MatroskaFrame) {
        self.seen.borrow_mut().frames.push(f);
    }
    fn segment_tracks(&mut self, _e: &Rc<Element>) {
        self.seen.borrow_mut().tracks += 1;
    }
    fn segment_info(&mut self, _e: &Rc<Element>) {
        self.seen.borrow_mut().infos += 1;
    }
}

#[test]
fn frames_from_blocks() {
    let f = frame_from_block(&[0x81, 0x00, 0x02, 0x00, 9, 8], 10, 1000).unwrap();
    assert_eq!(f, MatroskaFrame { timecode_nanoseconds: 12000, track_number: 1, buffers: vec![vec![9, 8]] });
    let f = frame_from_block(&[0x82, 0xFF, 0xFF, 0x00], 10, 1000).unwrap();
    assert_eq!(f.timecode_nanoseconds, 9000);
    assert_eq!(f.track_number, 2);
    assert_eq!(f.buffers, vec![Vec::<u8>::new()]);
    assert!(frame_from_block(&[0x01, 0, 0, 0], 0, 1).is_none());
    assert!(frame_from_block(&[0x81, 0], 0, 1).is_none());
    assert!(frame_from_block(&[], 0, 1).is_none());
}

#[test]
fn demuxer_reads_a_segment() {
    let h = Frames::default();
    let mut d = MidlevelParser::new(MatroskaDemuxer::new(h.clone()));
    let info = segment_info(1000, "m".to_string(), "w".to_string(), None, None, None, None);
    let segment = el(Class::Segment, vec![
        info,
        el(Class::Tracks, vec![]),
        cluster_with_one_simple_block(7, vec![0x83, 0x00, 0x01, 0x00, 42]),
    ]);
    let mut p = new();
    p.feed_bytes(&generate(&segment), &mut d);
    let seen = h.seen.borrow();
    assert_eq!(seen.infos, 1);
    assert_eq!(seen.tracks, 1);
    assert_eq!(seen.frames, vec![MatroskaFrame { timecode_nanoseconds: 8000000, track_number: 3, buffers: vec![vec![42]] }]);
}

#[test]
fn demuxer_events() {
    let h = Frames::default();
    let mut d = MatroskaDemuxer::new(h.clone());
    assert_eq!(d.how_to_handle(Class::Info), WhatToDo::Build);
    assert_eq!(d.how_to_handle(Class::Tracks), WhatToDo::Build);
    assert_eq!(d.how_to_handle(Class::Cluster), WhatToDo::GoOn);
    d.event(MidlevelEvent::EnterElement(Class::TimecodeScale));
    d.event(MidlevelEvent::Content(SimpleContent::Unsigned(100)));
    d.event(MidlevelEvent::EnterElement(Class::Timecode));
    d.event(MidlevelEvent::Content(SimpleContent::Unsigned(5)));
    d.event(MidlevelEvent::EnterElement(Class::SimpleBlock));
    d.event(MidlevelEvent::Content(SimpleContent::Binary(vec![0x81, 0x00], BinaryChunkStatus::First)));
    d.event(MidlevelEvent::Content(SimpleContent::Binary(vec![0x03, 0x00, 1, 2], BinaryChunkStatus::Last)));
    d.event(MidlevelEvent::Element(Rc::new(el(Class::Info, vec![el_uns(Class::TimecodeScale, 1)]))));
    d.event(MidlevelEvent::Element(Rc::new(el(Class::Tracks, vec![]))));
    let seen = h.seen.borrow();
    assert_eq!(seen.frames, vec![MatroskaFrame { timecode_nanoseconds: 800, track_number: 1, buffers: vec![vec![1, 2]] }]);
    assert_eq!(seen.infos, 1);
    assert_eq!(seen.tracks, 1);
}

#[test]
fn short_blocks_are_passed_over() {
    let h = Frames::default();
    let mut d = MatroskaDemuxer::new(h.clone());
    d.event(MidlevelEvent::EnterElement(Class::SimpleBlock));
    d.event(MidlevelEvent::Content(SimpleContent::Binary(vec![0x81], BinaryChunkStatus::Full)));
    d.event(MidlevelEvent::EnterElement(Class::Block));
    d.event(MidlevelEvent::Content(SimpleContent::Binary(vec![0x81, 0, 0, 0], BinaryChunkStatus::Full)));
    let seen = h.seen.borrow();
    assert_eq!(seen.frames, vec![MatroskaFrame { timecode_nanoseconds: 0, track_number: 1, buffers: vec![vec![]] }]);
}
