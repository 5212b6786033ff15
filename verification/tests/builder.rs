use mkv::elements::builder::Builder;
use mkv::elements::database::{class_to_id, Class};
use mkv::elements::parser::{Event, EventsHandler, Info, SimpleContent, BinaryChunkStatus};
use mkv::elements::templates::ebml_header;
use mkv::elements::{el, el_bin, el_sig, el_uns, Element};
use std::rc::Rc;

fn info(id: u64, offset: u64, len: u64) -> Info {
    Info { id, offset, length_including_header: Some(len) }
}

#[test]
fn builder_t1() {
    let b: Builder = Default::default();
    assert_eq!(*b.captured_elements(), Vec::<Rc<Element>>::new());
}

#[test]
fn builder_t2() {
    let mut b: Builder = Default::default();
    b.event(Event::Begin(info(0xA3, 0, 4)));
    b.event(Event::Data(SimpleContent::Binary(vec![0x44, 0x55], BinaryChunkStatus::Full)));
    b.event(Event::End(info(0xA3, 0, 4)));
    assert_eq!(*b.captured_elements(), vec![Rc::new(el_bin(Class::SimpleBlock, vec![0x44, 0x55]))]);
}

#[test]
fn builder_t3() {
    let mut b: Builder = Default::default();
    b.event(Event::Begin(info(0xCC, 0, 3)));
    b.event(Event::Data(SimpleContent::Unsigned(33)));
    b.event(Event::End(info(0xCC, 0, 3)));
    b.event(Event::Begin(info(0xFB, 3, 3)));
    b.event(Event::Data(SimpleContent::Signed(-33)));
    b.event(Event::End(info(0xFB, 3, 3)));
    assert_eq!(*b.captured_elements(), vec![
        Rc::new(el_uns(Class::LaceNumber, 33)),
        Rc::new(el_sig(Class::ReferenceBlock, -33)),
    ]);
}

#[test]
fn builder_t4() {
    let mut b: Builder = Default::default();
    b.event(Event::Begin(info(0x1F43B675, 0, 5)));
    b.event(Event::End(info(0x1F43B675, 0, 5)));
    assert_eq!(*b.captured_elements(), vec![Rc::new(el(Class::Cluster, vec![]))]);
}

#[test]
fn builder_t5() {
    let mut b: Builder = Default::default();
    b.event(Event::Begin(info(0x1F43B675, 0, 8)));
    b.event(Event::Begin(info(0xE7, 5, 3)));
    b.event(Event::Data(SimpleContent::Unsigned(100)));
    b.event(Event::End(info(0xE7, 5, 3)));
    b.event(Event::End(info(0x1F43B675, 0, 8)));
    assert_eq!(*b.captured_elements(), vec![
        Rc::new(el(Class::Cluster, vec![el_uns(Class::Timecode, 100)])),
    ]);
}

#[test]
fn builder_t6() {
    let mut b: Builder = Default::default();
    let i = |c: Class, o: u64, l: u64| info(class_to_id(c), o, l);
    b.event(Event::Begin(i(Class::EBML, 0, 40)));
    b.event(Event::Begin(i(Class::EBMLVersion, 5, 4)));
    b.event(Event::Data(SimpleContent::Unsigned(1)));
    b.event(Event::End(i(Class::EBMLVersion, 5, 4)));
    b.event(Event::Begin(i(Class::EBMLReadVersion, 9, 4)));
    b.event(Event::Data(SimpleContent::Unsigned(1)));
    b.event(Event::End(i(Class::EBMLReadVersion, 9, 4)));
    b.event(Event::Begin(i(Class::EBMLMaxIDLength, 13, 4)));
    b.event(Event::Data(SimpleContent::Unsigned(4)));
    b.event(Event::End(i(Class::EBMLMaxIDLength, 13, 4)));
    b.event(Event::Begin(i(Class::EBMLMaxSizeLength, 17, 4)));
    b.event(Event::Data(SimpleContent::Unsigned(8)));
    b.event(Event::End(i(Class::EBMLMaxSizeLength, 17, 4)));
    b.event(Event::Begin(i(Class::DocType, 21, 11)));
    b.event(Event::Data(SimpleContent::Text("matroska".to_string())));
    b.event(Event::End(i(Class::DocType, 21, 11)));
    b.event(Event::Begin(i(Class::DocTypeVersion, 32, 4)));
    b.event(Event::Data(SimpleContent::Unsigned(2)));
    b.event(Event::End(i(Class::DocTypeVersion, 32, 4)));
    b.event(Event::Begin(i(Class::DocTypeReadVersion, 36, 4)));
    b.event(Event::Data(SimpleContent::Unsigned(2)));
    b.event(Event::End(i(Class::DocTypeReadVersion, 36, 4)));
    b.event(Event::End(i(Class::EBML, 0, 40)));
    assert_eq!(*b.captured_elements(), vec![Rc::new(ebml_header(false))]);
}

#[test]
fn builder_keeps_unknown_elements() {
    let mut b = Builder::new();
    b.event(Event::Begin(info(0x4321, 0, 4)));
    b.event(Event::Data(SimpleContent::Binary(vec![7], BinaryChunkStatus::Full)));
    b.event(Event::End(info(0x4321, 0, 4)));
    assert!(b.has_captured());
    let e = b.into_first_captured().unwrap();
    assert_eq!(e.class, Class::Unknown);
    assert_eq!(e.content, mkv::elements::ElementContent::Binary(Rc::new(vec![7])));
}

#[test]
fn builder_drops_element_without_payload() {
    let mut b = Builder::new();
    b.event(Event::Begin(info(0xA3, 0, 2)));
    b.event(Event::End(info(0xA3, 0, 2)));
    assert!(!b.has_captured());
    assert!(b.into_first_captured().is_none());
}

#[test]
fn builder_ignores_resync() {
    let mut b = Builder::new();
    b.event(Event::Resync);
    b.event(Event::Begin(info(0xE7, 0, 3)));
    b.event(Event::Data(SimpleContent::Unsigned(5)));
    b.event(Event::End(info(0xE7, 0, 3)));
    assert_eq!(*b.captured_elements(), vec![Rc::new(el_uns(Class::Timecode, 5))]);
}
