use mkv::elements::database::Class;
use mkv::elements::generator::generate;
use mkv::elements::midlevel::{event_bytes, MidlevelEvent, MidlevelEventHandler, MidlevelEventsToFile, MidlevelParser, WhatToDo};
use mkv::elements::parser::{new, EventsHandler, Event, Info, Parser, SimpleContent};
use mkv::elements::templates::{cluster_with_one_simple_block, ebml_header};
use mkv::elements::{el_bin, el_uns};
use std::rc::Rc;

#[derive(Default)]
struct Log {
    seen: Vec<String>,
}

impl MidlevelEventHandler for Log {
    fn event(&mut self, e: MidlevelEvent) {
        let s = match e {
            MidlevelEvent::EnterElement(c) => format!("enter {:?}", c),
            MidlevelEvent::LeaveElement(c) => format!("leave {:?}", c),
            MidlevelEvent::Element(x) => format!("element {:?}", x.class),
            MidlevelEvent::Content(_) => "content".to_string(),
            MidlevelEvent::Resync => "resync".to_string(),
        };
        self.seen.push(s);
    }
    fn how_to_handle(&mut self, c: Class) -> WhatToDo {
        if c == Class::Cluster { WhatToDo::Build } else { WhatToDo::GoOn }
    }
}

#[test]
fn midlevel_builds_what_is_asked() {
    let mut m = MidlevelParser::new(Log::default());
    let mut p = new();
    let mut bytes = generate(&el_uns(Class::Timecode, 3));
    bytes.extend(generate(&cluster_with_one_simple_block(4, vec![0x81, 0, 0, 0])));
    p.feed_bytes(&bytes, &mut m);
    assert_eq!(m.borrow_handler().seen, vec!["enter Timecode", "content", "leave Timecode", "element Cluster"]);
    m.event(Event::Resync);
    assert_eq!(m.into_handler().seen.last().unwrap(), "resync");
}

#[test]
fn midlevel_to_file_copies_a_file() {
    let mut out = MidlevelParser::new(MidlevelEventsToFile::new(Vec::new()));
    let mut p = new();
    let mut bytes = generate(&ebml_header(false));
    let cluster = cluster_with_one_simple_block(4, vec![0x81, 0, 0, 0]);
    bytes.extend_from_slice(&[0x18, 0x53, 0x80, 0x67, 0xFF]);
    bytes.extend(generate(&cluster));
    p.feed_bytes(&bytes, &mut out);
    let written = out.into_handler().into_file();
    let mut expected = generate(&ebml_header(false));
    expected.extend_from_slice(&[0x18, 0x53, 0x80, 0x67, 0xFF, 0xEC, 0xA0]);
    expected.extend_from_slice(&[0u8; 32]);
    expected.extend(generate(&cluster));
    assert_eq!(written, expected);
}

#[test]
fn resync_is_written_as_a_void_note() {
    let mut expected = vec![0xEC, 0x91];
    expected.extend_from_slice(b"\nHere was resync\n");
    assert_eq!(event_bytes(&MidlevelEvent::Resync), expected);
    assert_eq!(event_bytes(&MidlevelEvent::Element(Rc::new(el_bin(Class::Void, vec![])))), vec![0xEC, 0x80]);
    assert_eq!(event_bytes(&MidlevelEvent::LeaveElement(Class::Segment)), Vec::<u8>::new());
    assert_eq!(event_bytes(&MidlevelEvent::Content(SimpleContent::Unsigned(1))), Vec::<u8>::new());
    let _ = Info { id: 0, offset: 0, length_including_header: None };
}

#[test]
fn file_writer_passes_the_segment_through() {
    let mut w = MidlevelEventsToFile::new(Vec::new());
    assert_eq!(w.how_to_handle(Class::Segment), WhatToDo::GoOn);
    assert_eq!(w.how_to_handle(Class::Cluster), WhatToDo::Build);
    w.event(MidlevelEvent::EnterElement(Class::Segment));
    assert_eq!(w.borrow_file().len(), 4 + 1 + 2 + 32);
    w.borrow_file_mut().clear();
    assert!(w.into_file().is_empty());
}
