//! Element trees that Matroska files commonly hold.

use vstd::prelude::*;
use super::{Element, SpecElement, SpecElementContent, FloatBits, el, el_bin, el_uns, el_txt, el_flo, el_date};
use super::database::Class;
use super::generator::{generate, spec_generate, generatable, all_generatable, lemma_all_generatable_of_each};

verus! {

/// An unsigned element, as a value.
pub open spec fn s_uns(c: Class, d: u64) -> SpecElement {
    SpecElement { class: c, content: SpecElementContent::Unsigned(d) }
}

/// A text element, as a value.
pub open spec fn s_txt(c: Class, d: Seq<char>) -> SpecElement {
    SpecElement { class: c, content: SpecElementContent::Text(d) }
}

/// A binary element, as a value.
pub open spec fn s_bin(c: Class, d: Seq<u8>) -> SpecElement {
    SpecElement { class: c, content: SpecElementContent::Binary(d) }
}

/// A master element, as a value.
pub open spec fn s_el(c: Class, d: Seq<SpecElement>) -> SpecElement {
    SpecElement { class: c, content: SpecElementContent::Master(d) }
}

/// The EBML header of a Matroska (or WebM) file.
pub open spec fn spec_ebml_header(doc_type: Seq<char>) -> SpecElement {
    s_el(Class::EBML, seq![
        s_uns(Class::EBMLVersion, 1),
        s_uns(Class::EBMLReadVersion, 1),
        s_uns(Class::EBMLMaxIDLength, 4),
        s_uns(Class::EBMLMaxSizeLength, 8),
        s_txt(Class::DocType, doc_type),
        s_uns(Class::DocTypeVersion, 2),
        s_uns(Class::DocTypeReadVersion, 2),
    ])
}

/// The EBML header: version 1, IDs of up to 4 bytes, sizes of up to 8,
/// document type "webm" or "matroska", version 2.
pub fn ebml_header(webm: bool) -> (e: Element)
    ensures
        e@ == spec_ebml_header(if webm { "webm"@ } else { "matroska"@ }),
{
    let doc_type: &str = if webm { "webm" } else { "matroska" };
    let e = el(Class::EBML, vec![
        el_uns(Class::EBMLVersion, 1),
        el_uns(Class::EBMLReadVersion, 1),
        el_uns(Class::EBMLMaxIDLength, 4),
        el_uns(Class::EBMLMaxSizeLength, 8),
        el_txt(Class::DocType, doc_type.to_owned()),
        el_uns(Class::DocTypeVersion, 2),
        el_uns(Class::DocTypeReadVersion, 2),
    ]);
    assert(e@.content->Master_0 =~= spec_ebml_header(doc_type@).content->Master_0);
    e
}

/// An empty `Void` element, as a value: what stands for an absent one.
pub open spec fn s_void() -> SpecElement {
    s_bin(Class::Void, Seq::empty())
}

/// A cluster with its timecode and one simple block.
pub fn cluster_with_one_simple_block(cluster_timecode: u64, block_content: Vec<u8>) -> (e: Element)
    ensures
        e@ == s_el(Class::Cluster, seq![
            s_uns(Class::Timecode, cluster_timecode),
            s_bin(Class::SimpleBlock, block_content@),
        ]),
{
    let ghost b = block_content@;
    let e = el(Class::Cluster, vec![
        el_uns(Class::Timecode, cluster_timecode),
        el_bin(Class::SimpleBlock, block_content),
    ]);
    assert(e@.content->Master_0 =~= seq![s_uns(Class::Timecode, cluster_timecode), s_bin(Class::SimpleBlock, b)]);
    e
}

/// A cluster with its timecode and one block group: a block and its duration.
pub fn cluster_with_block_duration(cluster_timecode: u64, duration: u64, block_content: Vec<u8>) -> (e: Element)
    ensures
        e@ == s_el(Class::Cluster, seq![
            s_uns(Class::Timecode, cluster_timecode),
            s_el(Class::BlockGroup, seq![
                s_uns(Class::BlockDuration, duration),
                s_bin(Class::Block, block_content@),
            ]),
        ]),
{
    let ghost b = block_content@;
    let g = el(Class::BlockGroup, vec![
        el_uns(Class::BlockDuration, duration),
        el_bin(Class::Block, block_content),
    ]);
    assert(g@.content->Master_0 =~= seq![s_uns(Class::BlockDuration, duration), s_bin(Class::Block, b)]);
    let ghost gv = g@;
    let e = el(Class::Cluster, vec![
        el_uns(Class::Timecode, cluster_timecode),
        g,
    ]);
    assert(e@.content->Master_0 =~= seq![s_uns(Class::Timecode, cluster_timecode), gv]);
    e
}

/// An optional binary element, or an empty `Void` in its place, as a value.
pub open spec fn s_opt_bin(c: Class, d: Option<Vec<u8>>) -> SpecElement {
    match d {
        Some(x) => s_bin(c, x@),
        None => s_void(),
    }
}

/// An optional unsigned element, or an empty `Void` in its place, as a value.
pub open spec fn s_opt_uns(c: Class, d: Option<u64>) -> SpecElement {
    match d {
        Some(x) => s_uns(c, x),
        None => s_void(),
    }
}

/// An optional text element, or an empty `Void` in its place, as a value.
pub open spec fn s_opt_txt(c: Class, d: Option<String>) -> SpecElement {
    match d {
        Some(x) => s_txt(c, x@),
        None => s_void(),
    }
}

/// An optional floating-point element, or an empty `Void` in its place, as a value.
pub open spec fn s_opt_flo(c: Class, d: Option<FloatBits>) -> SpecElement {
    match d {
        Some(x) => SpecElement { class: c, content: SpecElementContent::Float(x) },
        None => s_void(),
    }
}

/// An optional date element, or an empty `Void` in its place, as a value.
pub open spec fn s_opt_date(c: Class, d: Option<i64>) -> SpecElement {
    match d {
        Some(x) => SpecElement { class: c, content: SpecElementContent::MatroskaDate(x) },
        None => s_void(),
    }
}

/// An optional binary element, or an empty `Void` in its place.
fn bin_or_void(c: Class, d: Option<Vec<u8>>) -> (e: Element)
    ensures
        e@ == s_opt_bin(c, d),
{
    match d {
        Some(x) => el_bin(c, x),
        None => el_bin(Class::Void, vec![]),
    }
}

/// An optional unsigned element, or an empty `Void` in its place.
fn uns_or_void(c: Class, d: Option<u64>) -> (e: Element)
    ensures
        e@ == s_opt_uns(c, d),
{
    match d {
        Some(x) => el_uns(c, x),
        None => el_bin(Class::Void, vec![]),
    }
}

/// An optional text element, or an empty `Void` in its place.
fn txt_or_void(c: Class, d: Option<String>) -> (e: Element)
    ensures
        e@ == s_opt_txt(c, d),
{
    match d {
        Some(x) => el_txt(c, x),
        None => el_bin(Class::Void, vec![]),
    }
}

/// The entry of a video track (type 1); the absent optional elements are
/// empty `Void` elements.
pub fn video_track_entry(
    track_number: u64,
    track_uid: u64,
    codec_id: String,
    codec_private: Option<Vec<u8>>,
    default_duration: Option<u64>,
    width: u64,
    height: u64,
    display_width: u64,
    display_height: u64,
) -> (e: Element)
    ensures
        e@ == s_el(Class::TrackEntry, seq![
            s_uns(Class::TrackNumber, track_number),
            s_uns(Class::TrackUID, track_uid),
            s_uns(Class::TrackType, 1),
            s_txt(Class::CodecID, codec_id@),
            s_opt_bin(Class::CodecPrivate, codec_private),
            s_opt_uns(Class::DefaultDuration, default_duration),
            s_el(Class::Video, seq![
                s_uns(Class::PixelWidth, width),
                s_uns(Class::PixelHeight, height),
                s_uns(Class::DisplayWidth, display_width),
                s_uns(Class::DisplayHeight, display_height),
            ]),
        ]),
{
    let v = el(Class::Video, vec![
        el_uns(Class::PixelWidth, width),
        el_uns(Class::PixelHeight, height),
        el_uns(Class::DisplayWidth, display_width),
        el_uns(Class::DisplayHeight, display_height),
    ]);
    assert(v@.content->Master_0 =~= seq![
        s_uns(Class::PixelWidth, width),
        s_uns(Class::PixelHeight, height),
        s_uns(Class::DisplayWidth, display_width),
        s_uns(Class::DisplayHeight, display_height),
    ]);
    let ghost cid = codec_id@;
    let cp = bin_or_void(Class::CodecPrivate, codec_private);
    let dd = uns_or_void(Class::DefaultDuration, default_duration);
    let ghost (vv, cpv, ddv) = (v@, cp@, dd@);
    assert(vv == s_el(Class::Video, seq![
        s_uns(Class::PixelWidth, width),
        s_uns(Class::PixelHeight, height),
        s_uns(Class::DisplayWidth, display_width),
        s_uns(Class::DisplayHeight, display_height),
    ]));
    let e = el(Class::TrackEntry, vec![
        el_uns(Class::TrackNumber, track_number),
        el_uns(Class::TrackUID, track_uid),
        el_uns(Class::TrackType, 1),
        el_txt(Class::CodecID, codec_id),
        cp,
        dd,
        v,
    ]);
    assert(e@.content->Master_0 =~= seq![
        s_uns(Class::TrackNumber, track_number),
        s_uns(Class::TrackUID, track_uid),
        s_uns(Class::TrackType, 1),
        s_txt(Class::CodecID, cid),
        cpv,
        ddv,
        vv,
    ]);
    assert(cpv == (s_opt_bin(Class::CodecPrivate, codec_private)));
    assert(ddv == (s_opt_uns(Class::DefaultDuration, default_duration)));
    e
}

/// The entry of an audio track (type 2); the absent optional elements are
/// empty `Void` elements.
pub fn audio_track_entry(
    track_number: u64,
    track_uid: u64,
    codec_id: String,
    codec_private: Option<Vec<u8>>,
    default_duration: Option<u64>,
    sampling_frequency: u64,
    channels: u64,
) -> (e: Element)
    ensures
        e@ == s_el(Class::TrackEntry, seq![
            s_uns(Class::TrackNumber, track_number),
            s_uns(Class::TrackUID, track_uid),
            s_uns(Class::TrackType, 2),
            s_txt(Class::CodecID, codec_id@),
            s_opt_bin(Class::CodecPrivate, codec_private),
            s_opt_uns(Class::DefaultDuration, default_duration),
            s_el(Class::Audio, seq![
                s_uns(Class::SamplingFrequency, sampling_frequency),
                s_uns(Class::Channels, channels),
            ]),
        ]),
{
    let a = el(Class::Audio, vec![
        el_uns(Class::SamplingFrequency, sampling_frequency),
        el_uns(Class::Channels, channels),
    ]);
    assert(a@.content->Master_0 =~= seq![
        s_uns(Class::SamplingFrequency, sampling_frequency),
        s_uns(Class::Channels, channels),
    ]);
    let ghost cid = codec_id@;
    let cp = bin_or_void(Class::CodecPrivate, codec_private);
    let dd = uns_or_void(Class::DefaultDuration, default_duration);
    let ghost (av, cpv, ddv) = (a@, cp@, dd@);
    assert(av == s_el(Class::Audio, seq![
        s_uns(Class::SamplingFrequency, sampling_frequency),
        s_uns(Class::Channels, channels),
    ]));
    let e = el(Class::TrackEntry, vec![
        el_uns(Class::TrackNumber, track_number),
        el_uns(Class::TrackUID, track_uid),
        el_uns(Class::TrackType, 2),
        el_txt(Class::CodecID, codec_id),
        cp,
        dd,
        a,
    ]);
    assert(e@.content->Master_0 =~= seq![
        s_uns(Class::TrackNumber, track_number),
        s_uns(Class::TrackUID, track_uid),
        s_uns(Class::TrackType, 2),
        s_txt(Class::CodecID, cid),
        cpv,
        ddv,
        av,
    ]);
    assert(cpv == (s_opt_bin(Class::CodecPrivate, codec_private)));
    assert(ddv == (s_opt_uns(Class::DefaultDuration, default_duration)));
    e
}

/// The segment information; the absent optional elements are empty `Void`
/// elements. The duration is given by the bits of its floating-point value.
pub fn segment_info(
    timecode_scale: u64,
    muxing_app: String,
    writing_app: String,
    title: Option<String>,
    duration: Option<FloatBits>,
    date: Option<i64>,
    segment_uid: Option<Vec<u8>>,
) -> (e: Element)
    ensures
        e@ == s_el(Class::Info, seq![
            s_uns(Class::TimecodeScale, timecode_scale),
            s_txt(Class::MuxingApp, muxing_app@),
            s_txt(Class::WritingApp, writing_app@),
            s_opt_txt(Class::Title, title),
            s_opt_bin(Class::SegmentUID, segment_uid),
            s_opt_flo(Class::Duration, duration),
            s_opt_date(Class::DateUTC, date),
        ]),
{
    let ghost (ma, wa) = (muxing_app@, writing_app@);
    let t = txt_or_void(Class::Title, title);
    let u = bin_or_void(Class::SegmentUID, segment_uid);
    let d = match duration {
        Some(x) => el_flo(Class::Duration, x),
        None => el_bin(Class::Void, vec![]),
    };
    assert(d@ == s_opt_flo(Class::Duration, duration));
    let dt = match date {
        Some(x) => el_date(Class::DateUTC, x),
        None => el_bin(Class::Void, vec![]),
    };
    assert(dt@ == s_opt_date(Class::DateUTC, date));
    let ghost (tv, uv, dv, dtv) = (t@, u@, d@, dt@);
    let e = el(Class::Info, vec![
        el_uns(Class::TimecodeScale, timecode_scale),
        el_txt(Class::MuxingApp, muxing_app),
        el_txt(Class::WritingApp, writing_app),
        t,
        u,
        d,
        dt,
    ]);
    assert(e@.content->Master_0 =~= seq![
        s_uns(Class::TimecodeScale, timecode_scale),
        s_txt(Class::MuxingApp, ma),
        s_txt(Class::WritingApp, wa),
        tv,
        uv,
        dv,
        dtv,
    ]);
    e
}


/// The values of elements, in order.
pub open spec fn views(v: Seq<Element>) -> Seq<SpecElement> {
    v.map_values(|x: Element| x@)
}

/// The bytes of a whole Matroska file: the EBML header, then one segment
/// that holds the segment information, the tracks and the clusters.
pub open spec fn spec_matroska_file(info: SpecElement, tracks: Seq<SpecElement>, clusters: Seq<SpecElement>) -> Seq<u8> {
    spec_generate(spec_ebml_header("matroska"@))
        + spec_generate(s_el(Class::Segment, seq![info, s_el(Class::Tracks, tracks)] + clusters))
}

/// Writes a whole Matroska file: the EBML header, then one segment with the
/// segment information, a `Tracks` element holding `tracks`, and the clusters.
pub fn matroska_file(segment_info: Element, tracks: Vec<Element>, clusters: Vec<Element>) -> (r: Vec<u8>)
    requires
        generatable(segment_info@),
        forall|i: int| 0 <= i < tracks@.len() ==> generatable(#[trigger] tracks@[i]@),
        forall|i: int| 0 <= i < clusters@.len() ==> generatable(#[trigger] clusters@[i]@),
    ensures
        r@ == spec_matroska_file(segment_info@, views(tracks@), views(clusters@)),
{
    let ghost (iv, tv, cv) = (segment_info@, views(tracks@), views(clusters@));
    let header = ebml_header(false);
    proof {
        reveal_strlit("matroska");
        let h = header@.content->Master_0;
        assert(forall|i: int| 0 <= i < h.len() ==> generatable(#[trigger] h[i]));
        lemma_all_generatable_of_each(h);
    }
    let mut r = generate(&header);
    proof {
        lemma_all_generatable_of_each(tv);
    }
    let tracks_el = el(Class::Tracks, tracks);
    let mut clusters = clusters;
    let mut x = vec![segment_info, tracks_el];
    x.append(&mut clusters);
    let segment = el(Class::Segment, x);
    proof {
        let s = segment@.content->Master_0;
        assert(s =~= seq![iv, s_el(Class::Tracks, tv)] + cv);
        assert(forall|i: int| 0 <= i < s.len() ==> generatable(#[trigger] s[i])) by {
            assert forall|i: int| 0 <= i < s.len() implies generatable(#[trigger] s[i]) by {
                if i >= 2 {
                    assert(s[i] == cv[i - 2]);
                }
            }
        }
        lemma_all_generatable_of_each(s);
    }
    let mut g = generate(&segment);
    r.append(&mut g);
    r
}

} // verus!
