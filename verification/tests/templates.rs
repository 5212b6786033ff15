use mkv::elements::database::Class;
use mkv::elements::generator::generate;
use mkv::elements::parser::{new, Event, EventsHandler, Parser};
use mkv::elements::builder::Builder;
use mkv::elements::templates::{
    audio_track_entry, cluster_with_block_duration, cluster_with_one_simple_block, ebml_header, matroska_file,
    segment_info, video_track_entry,
};
use mkv::elements::{el, el_bin, el_uns, ElementContent, FloatBits};
use std::rc::Rc;

const MATROSKA_HEADER: [u8; 40] = [
    0x1a, 0x45, 0xdf, 0xa3, 0xa3, 0x42, 0x86, 0x81, 0x01, 0x42, 0xf7, 0x81,
    0x01, 0x42, 0xf2, 0x81, 0x04, 0x42, 0xf3, 0x81, 0x08, 0x42, 0x82, 0x88,
    0x6d, 0x61, 0x74, 0x72, 0x6f, 0x73, 0x6b, 0x61, 0x42, 0x87, 0x81, 0x02,
    0x42, 0x85, 0x81, 0x02,
];

#[test]
fn ebml_header_bytes() {
    assert_eq!(generate(&ebml_header(false)), MATROSKA_HEADER.to_vec());
    let webm = generate(&ebml_header(true));
    assert_eq!(&webm[21..28], &[0x42, 0x82, 0x84, b'w', b'e', b'b', b'm']);
    assert_eq!(webm.len(), 36);
}

#[test]
fn clusters() {
    assert_eq!(generate(&cluster_with_one_simple_block(5, vec![0x81, 0, 0, 0])),
               vec![0x1F, 0x43, 0xB6, 0x75, 0x89, 0xE7, 0x81, 5, 0xA3, 0x84, 0x81, 0, 0, 0]);
    assert_eq!(cluster_with_block_duration(1, 2, vec![9]),
               el(Class::Cluster, vec![
                   el_uns(Class::Timecode, 1),
                   el(Class::BlockGroup, vec![el_uns(Class::BlockDuration, 2), el_bin(Class::Block, vec![9])]),
               ]));
}

#[test]
fn track_entries_fill_absent_parts_with_void() {
    let v = video_track_entry(1, 77, "V_VP8".to_string(), None, Some(40), 640, 480, 640, 480);
    match &v.content {
        ElementContent::Master(c) => {
            assert_eq!(c.len(), 7);
            assert_eq!(*c[2], el_uns(Class::TrackType, 1));
            assert_eq!(*c[4], el_bin(Class::Void, vec![]));
            assert_eq!(*c[5], el_uns(Class::DefaultDuration, 40));
        },
        _ => panic!("not a master element"),
    }
    let a = audio_track_entry(2, 78, "A_OPUS".to_string(), Some(vec![1, 2]), None, 48000, 2);
    match &a.content {
        ElementContent::Master(c) => {
            assert_eq!(*c[2], el_uns(Class::TrackType, 2));
            assert_eq!(*c[4], el_bin(Class::CodecPrivate, vec![1, 2]));
            assert_eq!(*c[5], el_bin(Class::Void, vec![]));
            assert_eq!(*c[6], el(Class::Audio, vec![el_uns(Class::SamplingFrequency, 48000), el_uns(Class::Channels, 2)]));
        },
        _ => panic!("not a master element"),
    }
}

struct Collect {
    b: Builder,
}

impl EventsHandler for Collect {
    fn event(&mut self, e: Event) {
        self.b.event(e);
    }
}

#[test]
fn matroska_file_reads_back() {
    let info = segment_info(1000000, "m".to_string(), "w".to_string(), None,
                            Some(FloatBits::Single(1.5f32.to_bits())), None, None);
    let track = video_track_entry(1, 1, "V_MJPEG".to_string(), Some(vec![5]), None, 2, 2, 2, 2);
    let cluster = cluster_with_one_simple_block(0, vec![0x81, 0, 0, 0, 7]);
    let bytes = matroska_file(info.clone(), vec![track.clone()], vec![cluster.clone()]);
    assert_eq!(&bytes[..40], &MATROSKA_HEADER[..]);
    let mut h = Collect { b: Builder::new() };
    let mut p = new();
    p.feed_bytes(&bytes, &mut h);
    let got = h.b.into_captured_elements();
    assert_eq!(got.len(), 2);
    assert_eq!(*got[0], ebml_header(false));
    assert_eq!(*got[1], el(Class::Segment, vec![info, el(Class::Tracks, vec![track]), cluster]));
    let _ = Rc::clone(&got[1]);
}

#[test]
fn written_trees_read_back_in_any_pieces() {
    let tree = el(Class::Cluster, vec![
        el_uns(Class::Timecode, 300),
        el(Class::BlockGroup, vec![el_uns(Class::BlockDuration, 2), el_bin(Class::Block, vec![0x81, 0, 0, 0])]),
        el(Class::BlockGroup, vec![]),
    ]);
    let bytes = generate(&tree);
    let mut h = Collect { b: Builder::new() };
    let mut p = new();
    for byte in bytes.iter() {
        p.feed_bytes(&[*byte], &mut h);
    }
    assert_eq!(h.b.into_captured_elements(), vec![Rc::new(tree)]);
}
