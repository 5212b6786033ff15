use mkv::elements::parser::{new, BinaryChunkStatus, Event, EventsHandler, Info, Parser, SimpleContent};
use mkv::elements::FloatBits;
use mkv::mkv::elements::parser::debug::{debug_logger, DebugPrint};
use mkv::mkv::elements::parser::new as new_owning;
use mkv::mkv::ElementParser;

fn info_str(i: &Info) -> String {
    i.describe()
}

fn float_value(f: &FloatBits) -> f64 {
    match *f {
        FloatBits::Single(b) => f32::from_bits(b) as f64,
        FloatBits::Double(b) => f64::from_bits(b),
    }
}

fn content_str(c: &SimpleContent) -> String {
    match c {
        SimpleContent::Unsigned(x) => format!("Unsigned({})", x),
        SimpleContent::Signed(x) => format!("Signed({})", x),
        SimpleContent::Text(s) => format!("Text({:?})", s),
        SimpleContent::Binary(b, st) => format!("Binary({:?}, {:?})", b, st),
        SimpleContent::Float(f) => format!("Float({:?})", float_value(f)),
        SimpleContent::MatroskaDate(x) => format!("MatroskaDate({})", x),
    }
}

struct SerializeToStr<'a> {
    s: &'a mut String,
}

impl<'a> EventsHandler for SerializeToStr<'a> {
    fn event(&mut self, e: Event) {
        let np = match e {
            Event::Begin(ref x) => format!("b {},", info_str(x)),
            Event::Data(ref x) => format!("d {},", content_str(x)),
            Event::End(ref x) => format!("e {},", info_str(x)),
            Event::Resync => format!("r,"),
        };
        self.s.push_str(&np);
    }
}

fn check(input: &[u8], output: &str) {
    let mut s = String::new();
    {
        let mut strdumper = SerializeToStr { s: &mut s };
        let mut p = new();
        p.feed_bytes(input, &mut strdumper);
    }
    assert_eq!(s, output);
    let mut s = String::new();
    {
        let mut strdumper = SerializeToStr { s: &mut s };
        let mut p = new();
        for i in input.iter() {
            p.feed_bytes(&[*i], &mut strdumper);
        }
    }
    assert_eq!(s, output);
}

/// The layout of the owning parser's text log: one line per event,
/// indented by nesting.
struct TextLog {
    d: DebugPrint<Vec<u8>>,
}

fn text_content(c: &SimpleContent) -> String {
    match c {
        SimpleContent::Unsigned(x) => format!("Unsigned({})", x),
        SimpleContent::Signed(x) => format!("Signed({})", x),
        SimpleContent::Text(s) => format!("Text({:?})", s),
        SimpleContent::Binary(b, _) => format!("Binary({:?})", b),
        SimpleContent::Float(f) => format!("Float({})", float_value(f)),
        SimpleContent::MatroskaDate(x) => format!("MatroskaDate({})", x),
    }
}

impl EventsHandler for TextLog {
    fn event(&mut self, e: Event) {
        let indent = self.d.note(&e);
        let line = match e {
            Event::Begin(ref x) => format!("element {}", info_str(x)),
            Event::Data(ref x) => format!("data {}", text_content(x)),
            Event::End(ref x) => format!("end {}", info_str(x)),
            Event::Resync => format!("resync"),
        };
        let w = self.d.borrow_writer_mut();
        for _ in 0..indent {
            w.push(b' ');
        }
        w.extend_from_slice(line.as_bytes());
        w.push(b'\n');
    }
}

fn check_text(input: &[u8], output: &str) {
    let mut p = new_owning(TextLog { d: debug_logger(Vec::new()) });
    p.feed_bytes(input);
    let out = p.into_handler().d.into_writer();
    assert_eq!(std::str::from_utf8(out.as_slice()), Ok(output));
    let mut p = new_owning(TextLog { d: debug_logger(Vec::new()) });
    for i in input.iter() {
        p.feed_bytes(&[*i]);
    }
    let out = p.into_handler().d.into_writer();
    assert_eq!(std::str::from_utf8(out.as_slice()), Ok(output));
}

#[test]
fn test_t1() {
    check(&[0xA3, 0x82, 33, 44], "b SimpleBlock(offset:0, rawlen:4),d Binary([33, 44], Full),e SimpleBlock(offset:0, rawlen:4),");
    check_text(&[0xA3, 0x82, 33, 44],
"element SimpleBlock(offset:0, rawlen:4)
 data Binary([33, 44])
end SimpleBlock(offset:0, rawlen:4)
");
}

#[test]
fn test_t2() {
    check(&[255, 255, 255, 255], "r,");
    check_text(&[255, 255, 255, 255], "resync\n");
}

#[test]
fn test_t3() {
    check(&[
        0x1a, 0x45, 0xdf, 0xa3, 0xa3, 0x42, 0x86, 0x81, 0x01, 0x42, 0xf7, 0x81,
        0x01, 0x42, 0xf2, 0x81, 0x04, 0x42, 0xf3, 0x81, 0x08, 0x42, 0x82, 0x88,
        0x6d, 0x61, 0x74, 0x72, 0x6f, 0x73, 0x6b, 0x61, 0x42, 0x87, 0x81, 0x02,
        0x42, 0x85, 0x81, 0x02,
    ],
    "\
b EBML(offset:0, rawlen:40),\
b EBMLVersion(offset:5, rawlen:4),\
d Unsigned(1),\
e EBMLVersion(offset:5, rawlen:4),\
b EBMLReadVersion(offset:9, rawlen:4),\
d Unsigned(1),\
e EBMLReadVersion(offset:9, rawlen:4),\
b EBMLMaxIDLength(offset:13, rawlen:4),\
d Unsigned(4),\
e EBMLMaxIDLength(offset:13, rawlen:4),\
b EBMLMaxSizeLength(offset:17, rawlen:4),\
d Unsigned(8),\
e EBMLMaxSizeLength(offset:17, rawlen:4),\
b DocType(offset:21, rawlen:11),\
d Text(\"matroska\"),\
e DocType(offset:21, rawlen:11),\
b DocTypeVersion(offset:32, rawlen:4),\
d Unsigned(2),\
e DocTypeVersion(offset:32, rawlen:4),\
b DocTypeReadVersion(offset:36, rawlen:4),\
d Unsigned(2),\
e DocTypeReadVersion(offset:36, rawlen:4),\
e EBML(offset:0, rawlen:40),\
");
    check_text(&[
        0x1a, 0x45, 0xdf, 0xa3, 0xa3, 0x42, 0x86, 0x81, 0x01, 0x42, 0xf7, 0x81,
        0x01, 0x42, 0xf2, 0x81, 0x04, 0x42, 0xf3, 0x81, 0x08, 0x42, 0x82, 0x88,
        0x6d, 0x61, 0x74, 0x72, 0x6f, 0x73, 0x6b, 0x61, 0x42, 0x87, 0x81, 0x02,
        0x42, 0x85, 0x81, 0x02,
    ],
"element EBML(offset:0, rawlen:40)
 element EBMLVersion(offset:5, rawlen:4)
  data Unsigned(1)
 end EBMLVersion(offset:5, rawlen:4)
 element EBMLReadVersion(offset:9, rawlen:4)
  data Unsigned(1)
 end EBMLReadVersion(offset:9, rawlen:4)
 element EBMLMaxIDLength(offset:13, rawlen:4)
  data Unsigned(4)
 end EBMLMaxIDLength(offset:13, rawlen:4)
 element EBMLMaxSizeLength(offset:17, rawlen:4)
  data Unsigned(8)
 end EBMLMaxSizeLength(offset:17, rawlen:4)
 element DocType(offset:21, rawlen:11)
  data Text(\"matroska\")
 end DocType(offset:21, rawlen:11)
 element DocTypeVersion(offset:32, rawlen:4)
  data Unsigned(2)
 end DocTypeVersion(offset:32, rawlen:4)
 element DocTypeReadVersion(offset:36, rawlen:4)
  data Unsigned(2)
 end DocTypeReadVersion(offset:36, rawlen:4)
end EBML(offset:0, rawlen:40)
");
}

#[test]
fn test_t4() {
    check(&[0xff, 0xff, 0x1a, 0x45, 0xdf, 0xa3, 0xa3], "r,b EBML(offset:2, rawlen:40),");
    check_text(&[0xff, 0xff, 0x1a, 0x45, 0xdf, 0xa3, 0xa3],
"resync
element EBML(offset:2, rawlen:40)
");
}

#[test]
fn test_t5() {
    check(&[0x44, 0x89, 0x84, 0x42, 0xe8, 0x00, 0x00],
        "b Duration(offset:0, rawlen:7),d Float(116.0),e Duration(offset:0, rawlen:7),");
    check_text(&[0x44, 0x89, 0x84, 0x42, 0xe8, 0x00, 0x00],
"element Duration(offset:0, rawlen:7)
 data Float(116)
end Duration(offset:0, rawlen:7)
");
}

#[test]
fn test_t6() {
    check(&[0x86, 0x85, 0x41, 0x42, 0x43, 0x44, 0x45],
        "b CodecID(offset:0, rawlen:7),d Text(\"ABCDE\"),e CodecID(offset:0, rawlen:7),");
    check_text(&[0x86, 0x85, 0x41, 0x42, 0x43, 0x44, 0x45],
"element CodecID(offset:0, rawlen:7)
 data Text(\"ABCDE\")
end CodecID(offset:0, rawlen:7)
");
}

#[test]
fn t7() {
    check(&[0xA3, 0x80], "b SimpleBlock(offset:0, rawlen:2),d Binary([], Full),e SimpleBlock(offset:0, rawlen:2),");
}

#[test]
fn t8() {
    check(&[0x1a, 0x45, 0xdf, 0xa3, 0x80], "b EBML(offset:0, rawlen:5),e EBML(offset:0, rawlen:5),");
}

#[test]
fn binary_chunk_status_is_full() {
    assert_eq!(BinaryChunkStatus::Full, BinaryChunkStatus::Full);
}

#[test]
fn describe_elements() {
    assert_eq!(Info { id: 0x4282, offset: 21, length_including_header: Some(11) }.describe(), "DocType(offset:21, rawlen:11)");
    assert_eq!(Info { id: 0x4321, offset: 0, length_including_header: None }.describe(), "0x4321(offset:0)");
    assert_eq!(Info { id: 0x1A45DFA3, offset: 18446744073709551615, length_including_header: Some(0) }.describe(),
               "EBML(offset:18446744073709551615, rawlen:0)");
}

#[test]
fn a_malformed_header_at_a_top_level_id_never_stops() {
    let mut p = new();
    let mut s = String::new();
    let mut h = SerializeToStr { s: &mut s };
    assert!(!p.stops(&[0x1a, 0x45, 0xdf, 0xa3, 0x00]));
    assert!(!p.check_feed(&[0x1a, 0x45, 0xdf, 0xa3, 0x00]));
    assert!(!p.try_feed_bytes(&[0x1a, 0x45, 0xdf, 0xa3, 0x00], &mut h));
    assert_eq!(s, "");
}

#[test]
fn ordinary_input_stops() {
    let p = new();
    assert!(p.stops(&[0xff, 0xff, 0x1a, 0x45, 0xdf, 0xa3, 0xa3]));
    assert!(p.stops(&[0x00, 0x00, 0x00]));
    assert!(p.stops(&[0x1a, 0x45, 0xdf, 0xa3]));
    let mut p = new();
    let mut s = String::new();
    let mut h = SerializeToStr { s: &mut s };
    assert!(p.try_feed_bytes(&[0xA3, 0x82, 33, 44], &mut h));
    assert_eq!(s, "b SimpleBlock(offset:0, rawlen:4),d Binary([33, 44], Full),e SimpleBlock(offset:0, rawlen:4),");
}

#[test]
fn owning_parser_refuses_input_it_would_not_stop_on() {
    let mut p = new_owning(TextLog { d: debug_logger(Vec::new()) });
    assert!(!p.try_feed_bytes(&[0x1a, 0x45, 0xdf, 0xa3, 0x00]));
    assert!(p.try_feed_bytes(&[0xA3, 0x80]));
    let out = p.into_handler().d.into_writer();
    assert_eq!(std::str::from_utf8(&out), Ok("element SimpleBlock(offset:0, rawlen:2)\n data Binary([])\nend SimpleBlock(offset:0, rawlen:2)\n"));
}

#[test]
fn invalid_text_resyncs() {
    check(&[0x86, 0x81, 0xFF], "b CodecID(offset:0, rawlen:3),r,");
}

#[test]
fn unknown_size_element_stays_open() {
    check(&[0x1a, 0x45, 0xdf, 0xa3, 0xFF, 0xA3, 0x81, 7], "b EBML(offset:0),b SimpleBlock(offset:5, rawlen:3),d Binary([7], Full),e SimpleBlock(offset:5, rawlen:3),");
}

#[test]
fn signed_and_date_payloads() {
    check(&[0xFB, 0x81, 0xFF], "b ReferenceBlock(offset:0, rawlen:3),d Signed(-127),e ReferenceBlock(offset:0, rawlen:3),");
    check(&[0x44, 0x61, 0x82, 0x01, 0x00], "b DateUTC(offset:0, rawlen:5),d MatroskaDate(256),e DateUTC(offset:0, rawlen:5),");
}

#[test]
fn force_resync_then_sync() {
    let mut s = String::new();
    {
        let mut h = SerializeToStr { s: &mut s };
        let mut p = new();
        p.force_resync();
        p.feed_bytes(&[0x00, 0x1F, 0x43, 0xB6, 0x75, 0x80], &mut h);
    }
    assert_eq!(s, "b Cluster(offset:1, rawlen:5),e Cluster(offset:1, rawlen:5),");
}
