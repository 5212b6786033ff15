//! The Matroska element table: element classes, their IDs and payload types.

use vstd::prelude::*;
use super::Type;

verus! {

/// Every element class known to this library, and `Unknown` for any other ID.
#[derive(Debug, Eq, PartialEq, PartialOrd, Hash, Copy, Clone, Structural)]
pub enum Class {
    EBML,
    EBMLVersion,
    EBMLReadVersion,
    EBMLMaxIDLength,
    EBMLMaxSizeLength,
    DocType,
    DocTypeVersion,
    DocTypeReadVersion,
    Void,
    CRC32,
    SignatureSlot,
    SignatureAlgo,
    SignatureHash,
    SignaturePublicKey,
    Signature,
    SignatureElements,
    SignatureElementList,
    SignedElement,
    Segment,
    SeekHead,
    Seek,
    SeekID,
    SeekPosition,
    Info,
    SegmentUID,
    SegmentFilename,
    PrevUID,
    PrevFilename,
    NextUID,
    NextFilename,
    SegmentFamily,
    ChapterTranslate,
    ChapterTranslateEditionUID,
    ChapterTranslateCodec,
    ChapterTranslateID,
    TimecodeScale,
    Duration,
    DateUTC,
    Title,
    MuxingApp,
    WritingApp,
    Cluster,
    Timecode,
    SilentTracks,
    SilentTrackNumber,
    Position,
    PrevSize,
    SimpleBlock,
    BlockGroup,
    Block,
    BlockVirtual,
    BlockAdditions,
    BlockMore,
    BlockAddID,
    BlockAdditional,
    BlockDuration,
    ReferencePriority,
    ReferenceBlock,
    ReferenceVirtual,
    CodecState,
    Slices,
    TimeSlice,
    LaceNumber,
    FrameNumber,
    BlockAdditionID,
    Delay,
    SliceDuration,
    ReferenceFrame,
    ReferenceOffset,
    ReferenceTimeCode,
    EncryptedBlock,
    Tracks,
    TrackEntry,
    TrackNumber,
    TrackUID,
    TrackType,
    FlagEnabled,
    FlagDefault,
    FlagForced,
    FlagLacing,
    MinCache,
    MaxCache,
    DefaultDuration,
    TrackTimecodeScale,
    TrackOffset,
    MaxBlockAdditionID,
    Name,
    Language,
    CodecID,
    CodecPrivate,
    CodecName,
    AttachmentLink,
    CodecSettings,
    CodecInfoURL,
    CodecDownloadURL,
    CodecDecodeAll,
    TrackOverlay,
    TrackTranslate,
    TrackTranslateEditionUID,
    TrackTranslateCodec,
    TrackTranslateTrackID,
    Video,
    FlagInterlaced,
    StereoMode,
    OldStereoMode,
    PixelWidth,
    PixelHeight,
    PixelCropBottom,
    PixelCropTop,
    PixelCropLeft,
    PixelCropRight,
    DisplayWidth,
    DisplayHeight,
    DisplayUnit,
    AspectRatioType,
    ColourSpace,
    GammaValue,
    FrameRate,
    Audio,
    SamplingFrequency,
    OutputSamplingFrequency,
    Channels,
    ChannelPositions,
    BitDepth,
    TrackOperation,
    TrackCombinePlanes,
    TrackPlane,
    TrackPlaneUID,
    TrackPlaneType,
    TrackJoinBlocks,
    TrackJoinUID,
    TrickTrackUID,
    TrickTrackSegmentUID,
    TrickTrackFlag,
    TrickMasterTrackUID,
    TrickMasterTrackSegmentUID,
    ContentEncodings,
    ContentEncoding,
    ContentEncodingOrder,
    ContentEncodingScope,
    ContentEncodingType,
    ContentCompression,
    ContentCompAlgo,
    ContentCompSettings,
    ContentEncryption,
    ContentEncAlgo,
    ContentEncKeyID,
    ContentSignature,
    ContentSigKeyID,
    ContentSigAlgo,
    ContentSigHashAlgo,
    Cues,
    CuePoint,
    CueTime,
    CueTrackPositions,
    CueTrack,
    CueClusterPosition,
    CueBlockNumber,
    CueCodecState,
    CueReference,
    CueRefTime,
    CueRefCluster,
    CueRefNumber,
    CueRefCodecState,
    Attachments,
    AttachedFile,
    FileDescription,
    FileName,
    FileMimeType,
    FileData,
    FileUID,
    FileReferral,
    FileUsedStartTime,
    FileUsedEndTime,
    Chapters,
    EditionEntry,
    EditionUID,
    EditionFlagHidden,
    EditionFlagDefault,
    EditionFlagOrdered,
    ChapterAtom,
    ChapterUID,
    ChapterTimeStart,
    ChapterTimeEnd,
    ChapterFlagHidden,
    ChapterFlagEnabled,
    ChapterSegmentUID,
    ChapterSegmentEditionUID,
    ChapterPhysicalEquiv,
    ChapterTrack,
    ChapterTrackNumber,
    ChapterDisplay,
    ChapString,
    ChapLanguage,
    ChapCountry,
    ChapProcess,
    ChapProcessCodecID,
    ChapProcessPrivate,
    ChapProcessCommand,
    ChapProcessTime,
    ChapProcessData,
    Tags,
    Tag,
    Targets,
    TargetTypeValue,
    TargetType,
    TagTrackUID,
    TagEditionUID,
    TagChapterUID,
    TagAttachmentUID,
    SimpleTag,
    TagName,
    TagLanguage,
    TagDefault,
    TagString,
    TagBinary,
    Unknown,
}

/// The ID of each known class (the table).
pub open spec fn spec_class_to_id(c: Class) -> u64 {
    match c {
        Class::EBML => 0x1A45DFA3,
        Class::EBMLVersion => 0x00004286,
        Class::EBMLReadVersion => 0x000042F7,
        Class::EBMLMaxIDLength => 0x000042F2,
        Class::EBMLMaxSizeLength => 0x000042F3,
        Class::DocType => 0x00004282,
        Class::DocTypeVersion => 0x00004287,
        Class::DocTypeReadVersion => 0x00004285,
        Class::Void => 0x000000EC,
        Class::CRC32 => 0x000000BF,
        Class::SignatureSlot => 0x1B538667,
        Class::SignatureAlgo => 0x00007E8A,
        Class::SignatureHash => 0x00007E9A,
        Class::SignaturePublicKey => 0x00007EA5,
        Class::Signature => 0x00007EB5,
        Class::SignatureElements => 0x00007E5B,
        Class::SignatureElementList => 0x00007E7B,
        Class::SignedElement => 0x00006532,
        Class::Segment => 0x18538067,
        Class::SeekHead => 0x114D9B74,
        Class::Seek => 0x00004DBB,
        Class::SeekID => 0x000053AB,
        Class::SeekPosition => 0x000053AC,
        Class::Info => 0x1549A966,
        Class::SegmentUID => 0x000073A4,
        Class::SegmentFilename => 0x00007384,
        Class::PrevUID => 0x003CB923,
        Class::PrevFilename => 0x003C83AB,
        Class::NextUID => 0x003EB923,
        Class::NextFilename => 0x003E83BB,
        Class::SegmentFamily => 0x00004444,
        Class::ChapterTranslate => 0x00006924,
        Class::ChapterTranslateEditionUID => 0x000069FC,
        Class::ChapterTranslateCodec => 0x000069BF,
        Class::ChapterTranslateID => 0x000069A5,
        Class::TimecodeScale => 0x002AD7B1,
        Class::Duration => 0x00004489,
        Class::DateUTC => 0x00004461,
        Class::Title => 0x00007BA9,
        Class::MuxingApp => 0x00004D80,
        Class::WritingApp => 0x00005741,
        Class::Cluster => 0x1F43B675,
        Class::Timecode => 0x000000E7,
        Class::SilentTracks => 0x00005854,
        Class::SilentTrackNumber => 0x000058D7,
        Class::Position => 0x000000A7,
        Class::PrevSize => 0x000000AB,
        Class::SimpleBlock => 0x000000A3,
        Class::BlockGroup => 0x000000A0,
        Class::Block => 0x000000A1,
        Class::BlockVirtual => 0x000000A2,
        Class::BlockAdditions => 0x000075A1,
        Class::BlockMore => 0x000000A6,
        Class::BlockAddID => 0x000000EE,
        Class::BlockAdditional => 0x000000A5,
        Class::BlockDuration => 0x0000009B,
        Class::ReferencePriority => 0x000000FA,
        Class::ReferenceBlock => 0x000000FB,
        Class::ReferenceVirtual => 0x000000FD,
        Class::CodecState => 0x000000A4,
        Class::Slices => 0x0000008E,
        Class::TimeSlice => 0x000000E8,
        Class::LaceNumber => 0x000000CC,
        Class::FrameNumber => 0x000000CD,
        Class::BlockAdditionID => 0x000000CB,
        Class::Delay => 0x000000CE,
        Class::SliceDuration => 0x000000CF,
        Class::ReferenceFrame => 0x000000C8,
        Class::ReferenceOffset => 0x000000C9,
        Class::ReferenceTimeCode => 0x000000CA,
        Class::EncryptedBlock => 0x000000AF,
        Class::Tracks => 0x1654AE6B,
        Class::TrackEntry => 0x000000AE,
        Class::TrackNumber => 0x000000D7,
        Class::TrackUID => 0x000073C5,
        Class::TrackType => 0x00000083,
        Class::FlagEnabled => 0x000000B9,
        Class::FlagDefault => 0x00000088,
        Class::FlagForced => 0x000055AA,
        Class::FlagLacing => 0x0000009C,
        Class::MinCache => 0x00006DE7,
        Class::MaxCache => 0x00006DF8,
        Class::DefaultDuration => 0x0023E383,
        Class::TrackTimecodeScale => 0x0023314F,
        Class::TrackOffset => 0x0000537F,
        Class::MaxBlockAdditionID => 0x000055EE,
        Class::Name => 0x0000536E,
        Class::Language => 0x0022B59C,
        Class::CodecID => 0x00000086,
        Class::CodecPrivate => 0x000063A2,
        Class::CodecName => 0x00258688,
        Class::AttachmentLink => 0x00007446,
        Class::CodecSettings => 0x003A9697,
        Class::CodecInfoURL => 0x003B4040,
        Class::CodecDownloadURL => 0x0026B240,
        Class::CodecDecodeAll => 0x000000AA,
        Class::TrackOverlay => 0x00006FAB,
        Class::TrackTranslate => 0x00006624,
        Class::TrackTranslateEditionUID => 0x000066FC,
        Class::TrackTranslateCodec => 0x000066BF,
        Class::TrackTranslateTrackID => 0x000066A5,
        Class::Video => 0x000000E0,
        Class::FlagInterlaced => 0x0000009A,
        Class::StereoMode => 0x000053B8,
        Class::OldStereoMode => 0x000053B9,
        Class::PixelWidth => 0x000000B0,
        Class::PixelHeight => 0x000000BA,
        Class::PixelCropBottom => 0x000054AA,
        Class::PixelCropTop => 0x000054BB,
        Class::PixelCropLeft => 0x000054CC,
        Class::PixelCropRight => 0x000054DD,
        Class::DisplayWidth => 0x000054B0,
        Class::DisplayHeight => 0x000054BA,
        Class::DisplayUnit => 0x000054B2,
        Class::AspectRatioType => 0x000054B3,
        Class::ColourSpace => 0x002EB524,
        Class::GammaValue => 0x002FB523,
        Class::FrameRate => 0x002383E3,
        Class::Audio => 0x000000E1,
        Class::SamplingFrequency => 0x000000B5,
        Class::OutputSamplingFrequency => 0x000078B5,
        Class::Channels => 0x0000009F,
        Class::ChannelPositions => 0x00007D7B,
        Class::BitDepth => 0x00006264,
        Class::TrackOperation => 0x000000E2,
        Class::TrackCombinePlanes => 0x000000E3,
        Class::TrackPlane => 0x000000E4,
        Class::TrackPlaneUID => 0x000000E5,
        Class::TrackPlaneType => 0x000000E6,
        Class::TrackJoinBlocks => 0x000000E9,
        Class::TrackJoinUID => 0x000000ED,
        Class::TrickTrackUID => 0x000000C0,
        Class::TrickTrackSegmentUID => 0x000000C1,
        Class::TrickTrackFlag => 0x000000C6,
        Class::TrickMasterTrackUID => 0x000000C7,
        Class::TrickMasterTrackSegmentUID => 0x000000C4,
        Class::ContentEncodings => 0x00006D80,
        Class::ContentEncoding => 0x00006240,
        Class::ContentEncodingOrder => 0x00005031,
        Class::ContentEncodingScope => 0x00005032,
        Class::ContentEncodingType => 0x00005033,
        Class::ContentCompression => 0x00005034,
        Class::ContentCompAlgo => 0x00004254,
        Class::ContentCompSettings => 0x00004255,
        Class::ContentEncryption => 0x00005035,
        Class::ContentEncAlgo => 0x000047E1,
        Class::ContentEncKeyID => 0x000047E2,
        Class::ContentSignature => 0x000047E3,
        Class::ContentSigKeyID => 0x000047E4,
        Class::ContentSigAlgo => 0x000047E5,
        Class::ContentSigHashAlgo => 0x000047E6,
        Class::Cues => 0x1C53BB6B,
        Class::CuePoint => 0x000000BB,
        Class::CueTime => 0x000000B3,
        Class::CueTrackPositions => 0x000000B7,
        Class::CueTrack => 0x000000F7,
        Class::CueClusterPosition => 0x000000F1,
        Class::CueBlockNumber => 0x00005378,
        Class::CueCodecState => 0x000000EA,
        Class::CueReference => 0x000000DB,
        Class::CueRefTime => 0x00000096,
        Class::CueRefCluster => 0x00000097,
        Class::CueRefNumber => 0x0000535F,
        Class::CueRefCodecState => 0x000000EB,
        Class::Attachments => 0x1941A469,
        Class::AttachedFile => 0x000061A7,
        Class::FileDescription => 0x0000467E,
        Class::FileName => 0x0000466E,
        Class::FileMimeType => 0x00004660,
        Class::FileData => 0x0000465C,
        Class::FileUID => 0x000046AE,
        Class::FileReferral => 0x00004675,
        Class::FileUsedStartTime => 0x00004661,
        Class::FileUsedEndTime => 0x00004662,
        Class::Chapters => 0x1043A770,
        Class::EditionEntry => 0x000045B9,
        Class::EditionUID => 0x000045BC,
        Class::EditionFlagHidden => 0x000045BD,
        Class::EditionFlagDefault => 0x000045DB,
        Class::EditionFlagOrdered => 0x000045DD,
        Class::ChapterAtom => 0x000000B6,
        Class::ChapterUID => 0x000073C4,
        Class::ChapterTimeStart => 0x00000091,
        Class::ChapterTimeEnd => 0x00000092,
        Class::ChapterFlagHidden => 0x00000098,
        Class::ChapterFlagEnabled => 0x00004598,
        Class::ChapterSegmentUID => 0x00006E67,
        Class::ChapterSegmentEditionUID => 0x00006EBC,
        Class::ChapterPhysicalEquiv => 0x000063C3,
        Class::ChapterTrack => 0x0000008F,
        Class::ChapterTrackNumber => 0x00000089,
        Class::ChapterDisplay => 0x00000080,
        Class::ChapString => 0x00000085,
        Class::ChapLanguage => 0x0000437C,
        Class::ChapCountry => 0x0000437E,
        Class::ChapProcess => 0x00006944,
        Class::ChapProcessCodecID => 0x00006955,
        Class::ChapProcessPrivate => 0x0000450D,
        Class::ChapProcessCommand => 0x00006911,
        Class::ChapProcessTime => 0x00006922,
        Class::ChapProcessData => 0x00006933,
        Class::Tags => 0x1254C367,
        Class::Tag => 0x00007373,
        Class::Targets => 0x000063C0,
        Class::TargetTypeValue => 0x000068CA,
        Class::TargetType => 0x000063CA,
        Class::TagTrackUID => 0x000063C5,
        Class::TagEditionUID => 0x000063C9,
        Class::TagChapterUID => 0x000063C4,
        Class::TagAttachmentUID => 0x000063C6,
        Class::SimpleTag => 0x000067C8,
        Class::TagName => 0x000045A3,
        Class::TagLanguage => 0x0000447A,
        Class::TagDefault => 0x00004484,
        Class::TagString => 0x00004487,
        Class::TagBinary => 0x00004485,
        Class::Unknown => 0,
    }
}

/// The payload type of each class (the table); unknown elements are binary.
pub open spec fn spec_class_to_type(c: Class) -> Type {
    match c {
        Class::EBML => Type::Master,
        Class::EBMLVersion => Type::Unsigned,
        Class::EBMLReadVersion => Type::Unsigned,
        Class::EBMLMaxIDLength => Type::Unsigned,
        Class::EBMLMaxSizeLength => Type::Unsigned,
        Class::DocType => Type::TextAscii,
        Class::DocTypeVersion => Type::Unsigned,
        Class::DocTypeReadVersion => Type::Unsigned,
        Class::Void => Type::Binary,
        Class::CRC32 => Type::Binary,
        Class::SignatureSlot => Type::Master,
        Class::SignatureAlgo => Type::Unsigned,
        Class::SignatureHash => Type::Unsigned,
        Class::SignaturePublicKey => Type::Binary,
        Class::Signature => Type::Binary,
        Class::SignatureElements => Type::Master,
        Class::SignatureElementList => Type::Master,
        Class::SignedElement => Type::Binary,
        Class::Segment => Type::Master,
        Class::SeekHead => Type::Master,
        Class::Seek => Type::Master,
        Class::SeekID => Type::Binary,
        Class::SeekPosition => Type::Unsigned,
        Class::Info => Type::Master,
        Class::SegmentUID => Type::Binary,
        Class::SegmentFilename => Type::TextUtf8,
        Class::PrevUID => Type::Binary,
        Class::PrevFilename => Type::TextUtf8,
        Class::NextUID => Type::Binary,
        Class::NextFilename => Type::TextUtf8,
        Class::SegmentFamily => Type::Binary,
        Class::ChapterTranslate => Type::Master,
        Class::ChapterTranslateEditionUID => Type::Unsigned,
        Class::ChapterTranslateCodec => Type::Unsigned,
        Class::ChapterTranslateID => Type::Binary,
        Class::TimecodeScale => Type::Unsigned,
        Class::Duration => Type::Float,
        Class::DateUTC => Type::Date,
        Class::Title => Type::TextUtf8,
        Class::MuxingApp => Type::TextUtf8,
        Class::WritingApp => Type::TextUtf8,
        Class::Cluster => Type::Master,
        Class::Timecode => Type::Unsigned,
        Class::SilentTracks => Type::Master,
        Class::SilentTrackNumber => Type::Unsigned,
        Class::Position => Type::Unsigned,
        Class::PrevSize => Type::Unsigned,
        Class::SimpleBlock => Type::Binary,
        Class::BlockGroup => Type::Master,
        Class::Block => Type::Binary,
        Class::BlockVirtual => Type::Binary,
        Class::BlockAdditions => Type::Master,
        Class::BlockMore => Type::Master,
        Class::BlockAddID => Type::Unsigned,
        Class::BlockAdditional => Type::Binary,
        Class::BlockDuration => Type::Unsigned,
        Class::ReferencePriority => Type::Unsigned,
        Class::ReferenceBlock => Type::Signed,
        Class::ReferenceVirtual => Type::Signed,
        Class::CodecState => Type::Binary,
        Class::Slices => Type::Master,
        Class::TimeSlice => Type::Master,
        Class::LaceNumber => Type::Unsigned,
        Class::FrameNumber => Type::Unsigned,
        Class::BlockAdditionID => Type::Unsigned,
        Class::Delay => Type::Unsigned,
        Class::SliceDuration => Type::Unsigned,
        Class::ReferenceFrame => Type::Master,
        Class::ReferenceOffset => Type::Unsigned,
        Class::ReferenceTimeCode => Type::Unsigned,
        Class::EncryptedBlock => Type::Binary,
        Class::Tracks => Type::Master,
        Class::TrackEntry => Type::Master,
        Class::TrackNumber => Type::Unsigned,
        Class::TrackUID => Type::Unsigned,
        Class::TrackType => Type::Unsigned,
        Class::FlagEnabled => Type::Unsigned,
        Class::FlagDefault => Type::Unsigned,
        Class::FlagForced => Type::Unsigned,
        Class::FlagLacing => Type::Unsigned,
        Class::MinCache => Type::Unsigned,
        Class::MaxCache => Type::Unsigned,
        Class::DefaultDuration => Type::Unsigned,
        Class::TrackTimecodeScale => Type::Float,
        Class::TrackOffset => Type::Signed,
        Class::MaxBlockAdditionID => Type::Unsigned,
        Class::Name => Type::TextUtf8,
        Class::Language => Type::TextAscii,
        Class::CodecID => Type::TextAscii,
        Class::CodecPrivate => Type::Binary,
        Class::CodecName => Type::TextUtf8,
        Class::AttachmentLink => Type::Unsigned,
        Class::CodecSettings => Type::TextUtf8,
        Class::CodecInfoURL => Type::TextAscii,
        Class::CodecDownloadURL => Type::TextAscii,
        Class::CodecDecodeAll => Type::Unsigned,
        Class::TrackOverlay => Type::Unsigned,
        Class::TrackTranslate => Type::Master,
        Class::TrackTranslateEditionUID => Type::Unsigned,
        Class::TrackTranslateCodec => Type::Unsigned,
        Class::TrackTranslateTrackID => Type::Binary,
        Class::Video => Type::Master,
        Class::FlagInterlaced => Type::Unsigned,
        Class::StereoMode => Type::Unsigned,
        Class::OldStereoMode => Type::Unsigned,
        Class::PixelWidth => Type::Unsigned,
        Class::PixelHeight => Type::Unsigned,
        Class::PixelCropBottom => Type::Unsigned,
        Class::PixelCropTop => Type::Unsigned,
        Class::PixelCropLeft => Type::Unsigned,
        Class::PixelCropRight => Type::Unsigned,
        Class::DisplayWidth => Type::Unsigned,
        Class::DisplayHeight => Type::Unsigned,
        Class::DisplayUnit => Type::Unsigned,
        Class::AspectRatioType => Type::Unsigned,
        Class::ColourSpace => Type::Binary,
        Class::GammaValue => Type::Float,
        Class::FrameRate => Type::Float,
        Class::Audio => Type::Master,
        Class::SamplingFrequency => Type::Float,
        Class::OutputSamplingFrequency => Type::Float,
        Class::Channels => Type::Unsigned,
        Class::ChannelPositions => Type::Binary,
        Class::BitDepth => Type::Unsigned,
        Class::TrackOperation => Type::Master,
        Class::TrackCombinePlanes => Type::Master,
        Class::TrackPlane => Type::Master,
        Class::TrackPlaneUID => Type::Unsigned,
        Class::TrackPlaneType => Type::Unsigned,
        Class::TrackJoinBlocks => Type::Master,
        Class::TrackJoinUID => Type::Unsigned,
        Class::TrickTrackUID => Type::Unsigned,
        Class::TrickTrackSegmentUID => Type::Binary,
        Class::TrickTrackFlag => Type::Unsigned,
        Class::TrickMasterTrackUID => Type::Unsigned,
        Class::TrickMasterTrackSegmentUID => Type::Binary,
        Class::ContentEncodings => Type::Master,
        Class::ContentEncoding => Type::Master,
        Class::ContentEncodingOrder => Type::Unsigned,
        Class::ContentEncodingScope => Type::Unsigned,
        Class::ContentEncodingType => Type::Unsigned,
        Class::ContentCompression => Type::Master,
        Class::ContentCompAlgo => Type::Unsigned,
        Class::ContentCompSettings => Type::Binary,
        Class::ContentEncryption => Type::Master,
        Class::ContentEncAlgo => Type::Unsigned,
        Class::ContentEncKeyID => Type::Binary,
        Class::ContentSignature => Type::Binary,
        Class::ContentSigKeyID => Type::Binary,
        Class::ContentSigAlgo => Type::Unsigned,
        Class::ContentSigHashAlgo => Type::Unsigned,
        Class::Cues => Type::Master,
        Class::CuePoint => Type::Master,
        Class::CueTime => Type::Unsigned,
        Class::CueTrackPositions => Type::Master,
        Class::CueTrack => Type::Unsigned,
        Class::CueClusterPosition => Type::Unsigned,
        Class::CueBlockNumber => Type::Unsigned,
        Class::CueCodecState => Type::Unsigned,
        Class::CueReference => Type::Master,
        Class::CueRefTime => Type::Unsigned,
        Class::CueRefCluster => Type::Unsigned,
        Class::CueRefNumber => Type::Unsigned,
        Class::CueRefCodecState => Type::Unsigned,
        Class::Attachments => Type::Master,
        Class::AttachedFile => Type::Master,
        Class::FileDescription => Type::TextUtf8,
        Class::FileName => Type::TextUtf8,
        Class::FileMimeType => Type::TextAscii,
        Class::FileData => Type::Binary,
        Class::FileUID => Type::Unsigned,
        Class::FileReferral => Type::Binary,
        Class::FileUsedStartTime => Type::Unsigned,
        Class::FileUsedEndTime => Type::Unsigned,
        Class::Chapters => Type::Master,
        Class::EditionEntry => Type::Master,
        Class::EditionUID => Type::Unsigned,
        Class::EditionFlagHidden => Type::Unsigned,
        Class::EditionFlagDefault => Type::Unsigned,
        Class::EditionFlagOrdered => Type::Unsigned,
        Class::ChapterAtom => Type::Master,
        Class::ChapterUID => Type::Unsigned,
        Class::ChapterTimeStart => Type::Unsigned,
        Class::ChapterTimeEnd => Type::Unsigned,
        Class::ChapterFlagHidden => Type::Unsigned,
        Class::ChapterFlagEnabled => Type::Unsigned,
        Class::ChapterSegmentUID => Type::Binary,
        Class::ChapterSegmentEditionUID => Type::Unsigned,
        Class::ChapterPhysicalEquiv => Type::Unsigned,
        Class::ChapterTrack => Type::Master,
        Class::ChapterTrackNumber => Type::Unsigned,
        Class::ChapterDisplay => Type::Master,
        Class::ChapString => Type::TextUtf8,
        Class::ChapLanguage => Type::TextAscii,
        Class::ChapCountry => Type::TextAscii,
        Class::ChapProcess => Type::Master,
        Class::ChapProcessCodecID => Type::Unsigned,
        Class::ChapProcessPrivate => Type::Binary,
        Class::ChapProcessCommand => Type::Master,
        Class::ChapProcessTime => Type::Unsigned,
        Class::ChapProcessData => Type::Binary,
        Class::Tags => Type::Master,
        Class::Tag => Type::Master,
        Class::Targets => Type::Master,
        Class::TargetTypeValue => Type::Unsigned,
        Class::TargetType => Type::TextAscii,
        Class::TagTrackUID => Type::Unsigned,
        Class::TagEditionUID => Type::Unsigned,
        Class::TagChapterUID => Type::Unsigned,
        Class::TagAttachmentUID => Type::Unsigned,
        Class::SimpleTag => Type::Master,
        Class::TagName => Type::TextUtf8,
        Class::TagLanguage => Type::TextAscii,
        Class::TagDefault => Type::Unsigned,
        Class::TagString => Type::TextUtf8,
        Class::TagBinary => Type::Binary,
        Class::Unknown => Type::Binary,
    }
}

/// The class with ID `id`, or `Unknown` if no class of the table has it.
pub open spec fn spec_id_to_class(id: u64) -> Class {
    match id {
        0x1A45DFA3 => Class::EBML,
        0x00004286 => Class::EBMLVersion,
        0x000042F7 => Class::EBMLReadVersion,
        0x000042F2 => Class::EBMLMaxIDLength,
        0x000042F3 => Class::EBMLMaxSizeLength,
        0x00004282 => Class::DocType,
        0x00004287 => Class::DocTypeVersion,
        0x00004285 => Class::DocTypeReadVersion,
        0x000000EC => Class::Void,
        0x000000BF => Class::CRC32,
        0x1B538667 => Class::SignatureSlot,
        0x00007E8A => Class::SignatureAlgo,
        0x00007E9A => Class::SignatureHash,
        0x00007EA5 => Class::SignaturePublicKey,
        0x00007EB5 => Class::Signature,
        0x00007E5B => Class::SignatureElements,
        0x00007E7B => Class::SignatureElementList,
        0x00006532 => Class::SignedElement,
        0x18538067 => Class::Segment,
        0x114D9B74 => Class::SeekHead,
        0x00004DBB => Class::Seek,
        0x000053AB => Class::SeekID,
        0x000053AC => Class::SeekPosition,
        0x1549A966 => Class::Info,
        0x000073A4 => Class::SegmentUID,
        0x00007384 => Class::SegmentFilename,
        0x003CB923 => Class::PrevUID,
        0x003C83AB => Class::PrevFilename,
        0x003EB923 => Class::NextUID,
        0x003E83BB => Class::NextFilename,
        0x00004444 => Class::SegmentFamily,
        0x00006924 => Class::ChapterTranslate,
        0x000069FC => Class::ChapterTranslateEditionUID,
        0x000069BF => Class::ChapterTranslateCodec,
        0x000069A5 => Class::ChapterTranslateID,
        0x002AD7B1 => Class::TimecodeScale,
        0x00004489 => Class::Duration,
        0x00004461 => Class::DateUTC,
        0x00007BA9 => Class::Title,
        0x00004D80 => Class::MuxingApp,
        0x00005741 => Class::WritingApp,
        0x1F43B675 => Class::Cluster,
        0x000000E7 => Class::Timecode,
        0x00005854 => Class::SilentTracks,
        0x000058D7 => Class::SilentTrackNumber,
        0x000000A7 => Class::Position,
        0x000000AB => Class::PrevSize,
        0x000000A3 => Class::SimpleBlock,
        0x000000A0 => Class::BlockGroup,
        0x000000A1 => Class::Block,
        0x000000A2 => Class::BlockVirtual,
        0x000075A1 => Class::BlockAdditions,
        0x000000A6 => Class::BlockMore,
        0x000000EE => Class::BlockAddID,
        0x000000A5 => Class::BlockAdditional,
        0x0000009B => Class::BlockDuration,
        0x000000FA => Class::ReferencePriority,
        0x000000FB => Class::ReferenceBlock,
        0x000000FD => Class::ReferenceVirtual,
        0x000000A4 => Class::CodecState,
        0x0000008E => Class::Slices,
        0x000000E8 => Class::TimeSlice,
        0x000000CC => Class::LaceNumber,
        0x000000CD => Class::FrameNumber,
        0x000000CB => Class::BlockAdditionID,
        0x000000CE => Class::Delay,
        0x000000CF => Class::SliceDuration,
        0x000000C8 => Class::ReferenceFrame,
        0x000000C9 => Class::ReferenceOffset,
        0x000000CA => Class::ReferenceTimeCode,
        0x000000AF => Class::EncryptedBlock,
        0x1654AE6B => Class::Tracks,
        0x000000AE => Class::TrackEntry,
        0x000000D7 => Class::TrackNumber,
        0x000073C5 => Class::TrackUID,
        0x00000083 => Class::TrackType,
        0x000000B9 => Class::FlagEnabled,
        0x00000088 => Class::FlagDefault,
        0x000055AA => Class::FlagForced,
        0x0000009C => Class::FlagLacing,
        0x00006DE7 => Class::MinCache,
        0x00006DF8 => Class::MaxCache,
        0x0023E383 => Class::DefaultDuration,
        0x0023314F => Class::TrackTimecodeScale,
        0x0000537F => Class::TrackOffset,
        0x000055EE => Class::MaxBlockAdditionID,
        0x0000536E => Class::Name,
        0x0022B59C => Class::Language,
        0x00000086 => Class::CodecID,
        0x000063A2 => Class::CodecPrivate,
        0x00258688 => Class::CodecName,
        0x00007446 => Class::AttachmentLink,
        0x003A9697 => Class::CodecSettings,
        0x003B4040 => Class::CodecInfoURL,
        0x0026B240 => Class::CodecDownloadURL,
        0x000000AA => Class::CodecDecodeAll,
        0x00006FAB => Class::TrackOverlay,
        0x00006624 => Class::TrackTranslate,
        0x000066FC => Class::TrackTranslateEditionUID,
        0x000066BF => Class::TrackTranslateCodec,
        0x000066A5 => Class::TrackTranslateTrackID,
        0x000000E0 => Class::Video,
        0x0000009A => Class::FlagInterlaced,
        0x000053B8 => Class::StereoMode,
        0x000053B9 => Class::OldStereoMode,
        0x000000B0 => Class::PixelWidth,
        0x000000BA => Class::PixelHeight,
        0x000054AA => Class::PixelCropBottom,
        0x000054BB => Class::PixelCropTop,
        0x000054CC => Class::PixelCropLeft,
        0x000054DD => Class::PixelCropRight,
        0x000054B0 => Class::DisplayWidth,
        0x000054BA => Class::DisplayHeight,
        0x000054B2 => Class::DisplayUnit,
        0x000054B3 => Class::AspectRatioType,
        0x002EB524 => Class::ColourSpace,
        0x002FB523 => Class::GammaValue,
        0x002383E3 => Class::FrameRate,
        0x000000E1 => Class::Audio,
        0x000000B5 => Class::SamplingFrequency,
        0x000078B5 => Class::OutputSamplingFrequency,
        0x0000009F => Class::Channels,
        0x00007D7B => Class::ChannelPositions,
        0x00006264 => Class::BitDepth,
        0x000000E2 => Class::TrackOperation,
        0x000000E3 => Class::TrackCombinePlanes,
        0x000000E4 => Class::TrackPlane,
        0x000000E5 => Class::TrackPlaneUID,
        0x000000E6 => Class::TrackPlaneType,
        0x000000E9 => Class::TrackJoinBlocks,
        0x000000ED => Class::TrackJoinUID,
        0x000000C0 => Class::TrickTrackUID,
        0x000000C1 => Class::TrickTrackSegmentUID,
        0x000000C6 => Class::TrickTrackFlag,
        0x000000C7 => Class::TrickMasterTrackUID,
        0x000000C4 => Class::TrickMasterTrackSegmentUID,
        0x00006D80 => Class::ContentEncodings,
        0x00006240 => Class::ContentEncoding,
        0x00005031 => Class::ContentEncodingOrder,
        0x00005032 => Class::ContentEncodingScope,
        0x00005033 => Class::ContentEncodingType,
        0x00005034 => Class::ContentCompression,
        0x00004254 => Class::ContentCompAlgo,
        0x00004255 => Class::ContentCompSettings,
        0x00005035 => Class::ContentEncryption,
        0x000047E1 => Class::ContentEncAlgo,
        0x000047E2 => Class::ContentEncKeyID,
        0x000047E3 => Class::ContentSignature,
        0x000047E4 => Class::ContentSigKeyID,
        0x000047E5 => Class::ContentSigAlgo,
        0x000047E6 => Class::ContentSigHashAlgo,
        0x1C53BB6B => Class::Cues,
        0x000000BB => Class::CuePoint,
        0x000000B3 => Class::CueTime,
        0x000000B7 => Class::CueTrackPositions,
        0x000000F7 => Class::CueTrack,
        0x000000F1 => Class::CueClusterPosition,
        0x00005378 => Class::CueBlockNumber,
        0x000000EA => Class::CueCodecState,
        0x000000DB => Class::CueReference,
        0x00000096 => Class::CueRefTime,
        0x00000097 => Class::CueRefCluster,
        0x0000535F => Class::CueRefNumber,
        0x000000EB => Class::CueRefCodecState,
        0x1941A469 => Class::Attachments,
        0x000061A7 => Class::AttachedFile,
        0x0000467E => Class::FileDescription,
        0x0000466E => Class::FileName,
        0x00004660 => Class::FileMimeType,
        0x0000465C => Class::FileData,
        0x000046AE => Class::FileUID,
        0x00004675 => Class::FileReferral,
        0x00004661 => Class::FileUsedStartTime,
        0x00004662 => Class::FileUsedEndTime,
        0x1043A770 => Class::Chapters,
        0x000045B9 => Class::EditionEntry,
        0x000045BC => Class::EditionUID,
        0x000045BD => Class::EditionFlagHidden,
        0x000045DB => Class::EditionFlagDefault,
        0x000045DD => Class::EditionFlagOrdered,
        0x000000B6 => Class::ChapterAtom,
        0x000073C4 => Class::ChapterUID,
        0x00000091 => Class::ChapterTimeStart,
        0x00000092 => Class::ChapterTimeEnd,
        0x00000098 => Class::ChapterFlagHidden,
        0x00004598 => Class::ChapterFlagEnabled,
        0x00006E67 => Class::ChapterSegmentUID,
        0x00006EBC => Class::ChapterSegmentEditionUID,
        0x000063C3 => Class::ChapterPhysicalEquiv,
        0x0000008F => Class::ChapterTrack,
        0x00000089 => Class::ChapterTrackNumber,
        0x00000080 => Class::ChapterDisplay,
        0x00000085 => Class::ChapString,
        0x0000437C => Class::ChapLanguage,
        0x0000437E => Class::ChapCountry,
        0x00006944 => Class::ChapProcess,
        0x00006955 => Class::ChapProcessCodecID,
        0x0000450D => Class::ChapProcessPrivate,
        0x00006911 => Class::ChapProcessCommand,
        0x00006922 => Class::ChapProcessTime,
        0x00006933 => Class::ChapProcessData,
        0x1254C367 => Class::Tags,
        0x00007373 => Class::Tag,
        0x000063C0 => Class::Targets,
        0x000068CA => Class::TargetTypeValue,
        0x000063CA => Class::TargetType,
        0x000063C5 => Class::TagTrackUID,
        0x000063C9 => Class::TagEditionUID,
        0x000063C4 => Class::TagChapterUID,
        0x000063C6 => Class::TagAttachmentUID,
        0x000067C8 => Class::SimpleTag,
        0x000045A3 => Class::TagName,
        0x0000447A => Class::TagLanguage,
        0x00004484 => Class::TagDefault,
        0x00004487 => Class::TagString,
        0x00004485 => Class::TagBinary,
        _ => Class::Unknown,
    }
}

/// The class of an element ID (`Unknown` when the table does not hold it).
pub fn id_to_class(id: u64) -> (c: Class)
    ensures
        c == spec_id_to_class(id),
{
    match id {
        0x1A45DFA3 => Class::EBML,
        0x00004286 => Class::EBMLVersion,
        0x000042F7 => Class::EBMLReadVersion,
        0x000042F2 => Class::EBMLMaxIDLength,
        0x000042F3 => Class::EBMLMaxSizeLength,
        0x00004282 => Class::DocType,
        0x00004287 => Class::DocTypeVersion,
        0x00004285 => Class::DocTypeReadVersion,
        0x000000EC => Class::Void,
        0x000000BF => Class::CRC32,
        0x1B538667 => Class::SignatureSlot,
        0x00007E8A => Class::SignatureAlgo,
        0x00007E9A => Class::SignatureHash,
        0x00007EA5 => Class::SignaturePublicKey,
        0x00007EB5 => Class::Signature,
        0x00007E5B => Class::SignatureElements,
        0x00007E7B => Class::SignatureElementList,
        0x00006532 => Class::SignedElement,
        0x18538067 => Class::Segment,
        0x114D9B74 => Class::SeekHead,
        0x00004DBB => Class::Seek,
        0x000053AB => Class::SeekID,
        0x000053AC => Class::SeekPosition,
        0x1549A966 => Class::Info,
        0x000073A4 => Class::SegmentUID,
        0x00007384 => Class::SegmentFilename,
        0x003CB923 => Class::PrevUID,
        0x003C83AB => Class::PrevFilename,
        0x003EB923 => Class::NextUID,
        0x003E83BB => Class::NextFilename,
        0x00004444 => Class::SegmentFamily,
        0x00006924 => Class::ChapterTranslate,
        0x000069FC => Class::ChapterTranslateEditionUID,
        0x000069BF => Class::ChapterTranslateCodec,
        0x000069A5 => Class::ChapterTranslateID,
        0x002AD7B1 => Class::TimecodeScale,
        0x00004489 => Class::Duration,
        0x00004461 => Class::DateUTC,
        0x00007BA9 => Class::Title,
        0x00004D80 => Class::MuxingApp,
        0x00005741 => Class::WritingApp,
        0x1F43B675 => Class::Cluster,
        0x000000E7 => Class::Timecode,
        0x00005854 => Class::SilentTracks,
        0x000058D7 => Class::SilentTrackNumber,
        0x000000A7 => Class::Position,
        0x000000AB => Class::PrevSize,
        0x000000A3 => Class::SimpleBlock,
        0x000000A0 => Class::BlockGroup,
        0x000000A1 => Class::Block,
        0x000000A2 => Class::BlockVirtual,
        0x000075A1 => Class::BlockAdditions,
        0x000000A6 => Class::BlockMore,
        0x000000EE => Class::BlockAddID,
        0x000000A5 => Class::BlockAdditional,
        0x0000009B => Class::BlockDuration,
        0x000000FA => Class::ReferencePriority,
        0x000000FB => Class::ReferenceBlock,
        0x000000FD => Class::ReferenceVirtual,
        0x000000A4 => Class::CodecState,
        0x0000008E => Class::Slices,
        0x000000E8 => Class::TimeSlice,
        0x000000CC => Class::LaceNumber,
        0x000000CD => Class::FrameNumber,
        0x000000CB => Class::BlockAdditionID,
        0x000000CE => Class::Delay,
        0x000000CF => Class::SliceDuration,
        0x000000C8 => Class::ReferenceFrame,
        0x000000C9 => Class::ReferenceOffset,
        0x000000CA => Class::ReferenceTimeCode,
        0x000000AF => Class::EncryptedBlock,
        0x1654AE6B => Class::Tracks,
        0x000000AE => Class::TrackEntry,
        0x000000D7 => Class::TrackNumber,
        0x000073C5 => Class::TrackUID,
        0x00000083 => Class::TrackType,
        0x000000B9 => Class::FlagEnabled,
        0x00000088 => Class::FlagDefault,
        0x000055AA => Class::FlagForced,
        0x0000009C => Class::FlagLacing,
        0x00006DE7 => Class::MinCache,
        0x00006DF8 => Class::MaxCache,
        0x0023E383 => Class::DefaultDuration,
        0x0023314F => Class::TrackTimecodeScale,
        0x0000537F => Class::TrackOffset,
        0x000055EE => Class::MaxBlockAdditionID,
        0x0000536E => Class::Name,
        0x0022B59C => Class::Language,
        0x00000086 => Class::CodecID,
        0x000063A2 => Class::CodecPrivate,
        0x00258688 => Class::CodecName,
        0x00007446 => Class::AttachmentLink,
        0x003A9697 => Class::CodecSettings,
        0x003B4040 => Class::CodecInfoURL,
        0x0026B240 => Class::CodecDownloadURL,
        0x000000AA => Class::CodecDecodeAll,
        0x00006FAB => Class::TrackOverlay,
        0x00006624 => Class::TrackTranslate,
        0x000066FC => Class::TrackTranslateEditionUID,
        0x000066BF => Class::TrackTranslateCodec,
        0x000066A5 => Class::TrackTranslateTrackID,
        0x000000E0 => Class::Video,
        0x0000009A => Class::FlagInterlaced,
        0x000053B8 => Class::StereoMode,
        0x000053B9 => Class::OldStereoMode,
        0x000000B0 => Class::PixelWidth,
        0x000000BA => Class::PixelHeight,
        0x000054AA => Class::PixelCropBottom,
        0x000054BB => Class::PixelCropTop,
        0x000054CC => Class::PixelCropLeft,
        0x000054DD => Class::PixelCropRight,
        0x000054B0 => Class::DisplayWidth,
        0x000054BA => Class::DisplayHeight,
        0x000054B2 => Class::DisplayUnit,
        0x000054B3 => Class::AspectRatioType,
        0x002EB524 => Class::ColourSpace,
        0x002FB523 => Class::GammaValue,
        0x002383E3 => Class::FrameRate,
        0x000000E1 => Class::Audio,
        0x000000B5 => Class::SamplingFrequency,
        0x000078B5 => Class::OutputSamplingFrequency,
        0x0000009F => Class::Channels,
        0x00007D7B => Class::ChannelPositions,
        0x00006264 => Class::BitDepth,
        0x000000E2 => Class::TrackOperation,
        0x000000E3 => Class::TrackCombinePlanes,
        0x000000E4 => Class::TrackPlane,
        0x000000E5 => Class::TrackPlaneUID,
        0x000000E6 => Class::TrackPlaneType,
        0x000000E9 => Class::TrackJoinBlocks,
        0x000000ED => Class::TrackJoinUID,
        0x000000C0 => Class::TrickTrackUID,
        0x000000C1 => Class::TrickTrackSegmentUID,
        0x000000C6 => Class::TrickTrackFlag,
        0x000000C7 => Class::TrickMasterTrackUID,
        0x000000C4 => Class::TrickMasterTrackSegmentUID,
        0x00006D80 => Class::ContentEncodings,
        0x00006240 => Class::ContentEncoding,
        0x00005031 => Class::ContentEncodingOrder,
        0x00005032 => Class::ContentEncodingScope,
        0x00005033 => Class::ContentEncodingType,
        0x00005034 => Class::ContentCompression,
        0x00004254 => Class::ContentCompAlgo,
        0x00004255 => Class::ContentCompSettings,
        0x00005035 => Class::ContentEncryption,
        0x000047E1 => Class::ContentEncAlgo,
        0x000047E2 => Class::ContentEncKeyID,
        0x000047E3 => Class::ContentSignature,
        0x000047E4 => Class::ContentSigKeyID,
        0x000047E5 => Class::ContentSigAlgo,
        0x000047E6 => Class::ContentSigHashAlgo,
        0x1C53BB6B => Class::Cues,
        0x000000BB => Class::CuePoint,
        0x000000B3 => Class::CueTime,
        0x000000B7 => Class::CueTrackPositions,
        0x000000F7 => Class::CueTrack,
        0x000000F1 => Class::CueClusterPosition,
        0x00005378 => Class::CueBlockNumber,
        0x000000EA => Class::CueCodecState,
        0x000000DB => Class::CueReference,
        0x00000096 => Class::CueRefTime,
        0x00000097 => Class::CueRefCluster,
        0x0000535F => Class::CueRefNumber,
        0x000000EB => Class::CueRefCodecState,
        0x1941A469 => Class::Attachments,
        0x000061A7 => Class::AttachedFile,
        0x0000467E => Class::FileDescription,
        0x0000466E => Class::FileName,
        0x00004660 => Class::FileMimeType,
        0x0000465C => Class::FileData,
        0x000046AE => Class::FileUID,
        0x00004675 => Class::FileReferral,
        0x00004661 => Class::FileUsedStartTime,
        0x00004662 => Class::FileUsedEndTime,
        0x1043A770 => Class::Chapters,
        0x000045B9 => Class::EditionEntry,
        0x000045BC => Class::EditionUID,
        0x000045BD => Class::EditionFlagHidden,
        0x000045DB => Class::EditionFlagDefault,
        0x000045DD => Class::EditionFlagOrdered,
        0x000000B6 => Class::ChapterAtom,
        0x000073C4 => Class::ChapterUID,
        0x00000091 => Class::ChapterTimeStart,
        0x00000092 => Class::ChapterTimeEnd,
        0x00000098 => Class::ChapterFlagHidden,
        0x00004598 => Class::ChapterFlagEnabled,
        0x00006E67 => Class::ChapterSegmentUID,
        0x00006EBC => Class::ChapterSegmentEditionUID,
        0x000063C3 => Class::ChapterPhysicalEquiv,
        0x0000008F => Class::ChapterTrack,
        0x00000089 => Class::ChapterTrackNumber,
        0x00000080 => Class::ChapterDisplay,
        0x00000085 => Class::ChapString,
        0x0000437C => Class::ChapLanguage,
        0x0000437E => Class::ChapCountry,
        0x00006944 => Class::ChapProcess,
        0x00006955 => Class::ChapProcessCodecID,
        0x0000450D => Class::ChapProcessPrivate,
        0x00006911 => Class::ChapProcessCommand,
        0x00006922 => Class::ChapProcessTime,
        0x00006933 => Class::ChapProcessData,
        0x1254C367 => Class::Tags,
        0x00007373 => Class::Tag,
        0x000063C0 => Class::Targets,
        0x000068CA => Class::TargetTypeValue,
        0x000063CA => Class::TargetType,
        0x000063C5 => Class::TagTrackUID,
        0x000063C9 => Class::TagEditionUID,
        0x000063C4 => Class::TagChapterUID,
        0x000063C6 => Class::TagAttachmentUID,
        0x000067C8 => Class::SimpleTag,
        0x000045A3 => Class::TagName,
        0x0000447A => Class::TagLanguage,
        0x00004484 => Class::TagDefault,
        0x00004487 => Class::TagString,
        0x00004485 => Class::TagBinary,
        _ => Class::Unknown,
    }
}

/// The ID of a known class.
pub fn class_to_id(c: Class) -> (id: u64)
    requires
        c != Class::Unknown,
    ensures
        id == spec_class_to_id(c),
{
    match c {
        Class::EBML => 0x1A45DFA3,
        Class::EBMLVersion => 0x00004286,
        Class::EBMLReadVersion => 0x000042F7,
        Class::EBMLMaxIDLength => 0x000042F2,
        Class::EBMLMaxSizeLength => 0x000042F3,
        Class::DocType => 0x00004282,
        Class::DocTypeVersion => 0x00004287,
        Class::DocTypeReadVersion => 0x00004285,
        Class::Void => 0x000000EC,
        Class::CRC32 => 0x000000BF,
        Class::SignatureSlot => 0x1B538667,
        Class::SignatureAlgo => 0x00007E8A,
        Class::SignatureHash => 0x00007E9A,
        Class::SignaturePublicKey => 0x00007EA5,
        Class::Signature => 0x00007EB5,
        Class::SignatureElements => 0x00007E5B,
        Class::SignatureElementList => 0x00007E7B,
        Class::SignedElement => 0x00006532,
        Class::Segment => 0x18538067,
        Class::SeekHead => 0x114D9B74,
        Class::Seek => 0x00004DBB,
        Class::SeekID => 0x000053AB,
        Class::SeekPosition => 0x000053AC,
        Class::Info => 0x1549A966,
        Class::SegmentUID => 0x000073A4,
        Class::SegmentFilename => 0x00007384,
        Class::PrevUID => 0x003CB923,
        Class::PrevFilename => 0x003C83AB,
        Class::NextUID => 0x003EB923,
        Class::NextFilename => 0x003E83BB,
        Class::SegmentFamily => 0x00004444,
        Class::ChapterTranslate => 0x00006924,
        Class::ChapterTranslateEditionUID => 0x000069FC,
        Class::ChapterTranslateCodec => 0x000069BF,
        Class::ChapterTranslateID => 0x000069A5,
        Class::TimecodeScale => 0x002AD7B1,
        Class::Duration => 0x00004489,
        Class::DateUTC => 0x00004461,
        Class::Title => 0x00007BA9,
        Class::MuxingApp => 0x00004D80,
        Class::WritingApp => 0x00005741,
        Class::Cluster => 0x1F43B675,
        Class::Timecode => 0x000000E7,
        Class::SilentTracks => 0x00005854,
        Class::SilentTrackNumber => 0x000058D7,
        Class::Position => 0x000000A7,
        Class::PrevSize => 0x000000AB,
        Class::SimpleBlock => 0x000000A3,
        Class::BlockGroup => 0x000000A0,
        Class::Block => 0x000000A1,
        Class::BlockVirtual => 0x000000A2,
        Class::BlockAdditions => 0x000075A1,
        Class::BlockMore => 0x000000A6,
        Class::BlockAddID => 0x000000EE,
        Class::BlockAdditional => 0x000000A5,
        Class::BlockDuration => 0x0000009B,
        Class::ReferencePriority => 0x000000FA,
        Class::ReferenceBlock => 0x000000FB,
        Class::ReferenceVirtual => 0x000000FD,
        Class::CodecState => 0x000000A4,
        Class::Slices => 0x0000008E,
        Class::TimeSlice => 0x000000E8,
        Class::LaceNumber => 0x000000CC,
        Class::FrameNumber => 0x000000CD,
        Class::BlockAdditionID => 0x000000CB,
        Class::Delay => 0x000000CE,
        Class::SliceDuration => 0x000000CF,
        Class::ReferenceFrame => 0x000000C8,
        Class::ReferenceOffset => 0x000000C9,
        Class::ReferenceTimeCode => 0x000000CA,
        Class::EncryptedBlock => 0x000000AF,
        Class::Tracks => 0x1654AE6B,
        Class::TrackEntry => 0x000000AE,
        Class::TrackNumber => 0x000000D7,
        Class::TrackUID => 0x000073C5,
        Class::TrackType => 0x00000083,
        Class::FlagEnabled => 0x000000B9,
        Class::FlagDefault => 0x00000088,
        Class::FlagForced => 0x000055AA,
        Class::FlagLacing => 0x0000009C,
        Class::MinCache => 0x00006DE7,
        Class::MaxCache => 0x00006DF8,
        Class::DefaultDuration => 0x0023E383,
        Class::TrackTimecodeScale => 0x0023314F,
        Class::TrackOffset => 0x0000537F,
        Class::MaxBlockAdditionID => 0x000055EE,
        Class::Name => 0x0000536E,
        Class::Language => 0x0022B59C,
        Class::CodecID => 0x00000086,
        Class::CodecPrivate => 0x000063A2,
        Class::CodecName => 0x00258688,
        Class::AttachmentLink => 0x00007446,
        Class::CodecSettings => 0x003A9697,
        Class::CodecInfoURL => 0x003B4040,
        Class::CodecDownloadURL => 0x0026B240,
        Class::CodecDecodeAll => 0x000000AA,
        Class::TrackOverlay => 0x00006FAB,
        Class::TrackTranslate => 0x00006624,
        Class::TrackTranslateEditionUID => 0x000066FC,
        Class::TrackTranslateCodec => 0x000066BF,
        Class::TrackTranslateTrackID => 0x000066A5,
        Class::Video => 0x000000E0,
        Class::FlagInterlaced => 0x0000009A,
        Class::StereoMode => 0x000053B8,
        Class::OldStereoMode => 0x000053B9,
        Class::PixelWidth => 0x000000B0,
        Class::PixelHeight => 0x000000BA,
        Class::PixelCropBottom => 0x000054AA,
        Class::PixelCropTop => 0x000054BB,
        Class::PixelCropLeft => 0x000054CC,
        Class::PixelCropRight => 0x000054DD,
        Class::DisplayWidth => 0x000054B0,
        Class::DisplayHeight => 0x000054BA,
        Class::DisplayUnit => 0x000054B2,
        Class::AspectRatioType => 0x000054B3,
        Class::ColourSpace => 0x002EB524,
        Class::GammaValue => 0x002FB523,
        Class::FrameRate => 0x002383E3,
        Class::Audio => 0x000000E1,
        Class::SamplingFrequency => 0x000000B5,
        Class::OutputSamplingFrequency => 0x000078B5,
        Class::Channels => 0x0000009F,
        Class::ChannelPositions => 0x00007D7B,
        Class::BitDepth => 0x00006264,
        Class::TrackOperation => 0x000000E2,
        Class::TrackCombinePlanes => 0x000000E3,
        Class::TrackPlane => 0x000000E4,
        Class::TrackPlaneUID => 0x000000E5,
        Class::TrackPlaneType => 0x000000E6,
        Class::TrackJoinBlocks => 0x000000E9,
        Class::TrackJoinUID => 0x000000ED,
        Class::TrickTrackUID => 0x000000C0,
        Class::TrickTrackSegmentUID => 0x000000C1,
        Class::TrickTrackFlag => 0x000000C6,
        Class::TrickMasterTrackUID => 0x000000C7,
        Class::TrickMasterTrackSegmentUID => 0x000000C4,
        Class::ContentEncodings => 0x00006D80,
        Class::ContentEncoding => 0x00006240,
        Class::ContentEncodingOrder => 0x00005031,
        Class::ContentEncodingScope => 0x00005032,
        Class::ContentEncodingType => 0x00005033,
        Class::ContentCompression => 0x00005034,
        Class::ContentCompAlgo => 0x00004254,
        Class::ContentCompSettings => 0x00004255,
        Class::ContentEncryption => 0x00005035,
        Class::ContentEncAlgo => 0x000047E1,
        Class::ContentEncKeyID => 0x000047E2,
        Class::ContentSignature => 0x000047E3,
        Class::ContentSigKeyID => 0x000047E4,
        Class::ContentSigAlgo => 0x000047E5,
        Class::ContentSigHashAlgo => 0x000047E6,
        Class::Cues => 0x1C53BB6B,
        Class::CuePoint => 0x000000BB,
        Class::CueTime => 0x000000B3,
        Class::CueTrackPositions => 0x000000B7,
        Class::CueTrack => 0x000000F7,
        Class::CueClusterPosition => 0x000000F1,
        Class::CueBlockNumber => 0x00005378,
        Class::CueCodecState => 0x000000EA,
        Class::CueReference => 0x000000DB,
        Class::CueRefTime => 0x00000096,
        Class::CueRefCluster => 0x00000097,
        Class::CueRefNumber => 0x0000535F,
        Class::CueRefCodecState => 0x000000EB,
        Class::Attachments => 0x1941A469,
        Class::AttachedFile => 0x000061A7,
        Class::FileDescription => 0x0000467E,
        Class::FileName => 0x0000466E,
        Class::FileMimeType => 0x00004660,
        Class::FileData => 0x0000465C,
        Class::FileUID => 0x000046AE,
        Class::FileReferral => 0x00004675,
        Class::FileUsedStartTime => 0x00004661,
        Class::FileUsedEndTime => 0x00004662,
        Class::Chapters => 0x1043A770,
        Class::EditionEntry => 0x000045B9,
        Class::EditionUID => 0x000045BC,
        Class::EditionFlagHidden => 0x000045BD,
        Class::EditionFlagDefault => 0x000045DB,
        Class::EditionFlagOrdered => 0x000045DD,
        Class::ChapterAtom => 0x000000B6,
        Class::ChapterUID => 0x000073C4,
        Class::ChapterTimeStart => 0x00000091,
        Class::ChapterTimeEnd => 0x00000092,
        Class::ChapterFlagHidden => 0x00000098,
        Class::ChapterFlagEnabled => 0x00004598,
        Class::ChapterSegmentUID => 0x00006E67,
        Class::ChapterSegmentEditionUID => 0x00006EBC,
        Class::ChapterPhysicalEquiv => 0x000063C3,
        Class::ChapterTrack => 0x0000008F,
        Class::ChapterTrackNumber => 0x00000089,
        Class::ChapterDisplay => 0x00000080,
        Class::ChapString => 0x00000085,
        Class::ChapLanguage => 0x0000437C,
        Class::ChapCountry => 0x0000437E,
        Class::ChapProcess => 0x00006944,
        Class::ChapProcessCodecID => 0x00006955,
        Class::ChapProcessPrivate => 0x0000450D,
        Class::ChapProcessCommand => 0x00006911,
        Class::ChapProcessTime => 0x00006922,
        Class::ChapProcessData => 0x00006933,
        Class::Tags => 0x1254C367,
        Class::Tag => 0x00007373,
        Class::Targets => 0x000063C0,
        Class::TargetTypeValue => 0x000068CA,
        Class::TargetType => 0x000063CA,
        Class::TagTrackUID => 0x000063C5,
        Class::TagEditionUID => 0x000063C9,
        Class::TagChapterUID => 0x000063C4,
        Class::TagAttachmentUID => 0x000063C6,
        Class::SimpleTag => 0x000067C8,
        Class::TagName => 0x000045A3,
        Class::TagLanguage => 0x0000447A,
        Class::TagDefault => 0x00004484,
        Class::TagString => 0x00004487,
        Class::TagBinary => 0x00004485,
        Class::Unknown => 0,
    }
}

/// The payload type of a class.
pub fn class_to_type(c: Class) -> (t: Type)
    ensures
        t == spec_class_to_type(c),
{
    match c {
        Class::EBML => Type::Master,
        Class::EBMLVersion => Type::Unsigned,
        Class::EBMLReadVersion => Type::Unsigned,
        Class::EBMLMaxIDLength => Type::Unsigned,
        Class::EBMLMaxSizeLength => Type::Unsigned,
        Class::DocType => Type::TextAscii,
        Class::DocTypeVersion => Type::Unsigned,
        Class::DocTypeReadVersion => Type::Unsigned,
        Class::Void => Type::Binary,
        Class::CRC32 => Type::Binary,
        Class::SignatureSlot => Type::Master,
        Class::SignatureAlgo => Type::Unsigned,
        Class::SignatureHash => Type::Unsigned,
        Class::SignaturePublicKey => Type::Binary,
        Class::Signature => Type::Binary,
        Class::SignatureElements => Type::Master,
        Class::SignatureElementList => Type::Master,
        Class::SignedElement => Type::Binary,
        Class::Segment => Type::Master,
        Class::SeekHead => Type::Master,
        Class::Seek => Type::Master,
        Class::SeekID => Type::Binary,
        Class::SeekPosition => Type::Unsigned,
        Class::Info => Type::Master,
        Class::SegmentUID => Type::Binary,
        Class::SegmentFilename => Type::TextUtf8,
        Class::PrevUID => Type::Binary,
        Class::PrevFilename => Type::TextUtf8,
        Class::NextUID => Type::Binary,
        Class::NextFilename => Type::TextUtf8,
        Class::SegmentFamily => Type::Binary,
        Class::ChapterTranslate => Type::Master,
        Class::ChapterTranslateEditionUID => Type::Unsigned,
        Class::ChapterTranslateCodec => Type::Unsigned,
        Class::ChapterTranslateID => Type::Binary,
        Class::TimecodeScale => Type::Unsigned,
        Class::Duration => Type::Float,
        Class::DateUTC => Type::Date,
        Class::Title => Type::TextUtf8,
        Class::MuxingApp => Type::TextUtf8,
        Class::WritingApp => Type::TextUtf8,
        Class::Cluster => Type::Master,
        Class::Timecode => Type::Unsigned,
        Class::SilentTracks => Type::Master,
        Class::SilentTrackNumber => Type::Unsigned,
        Class::Position => Type::Unsigned,
        Class::PrevSize => Type::Unsigned,
        Class::SimpleBlock => Type::Binary,
        Class::BlockGroup => Type::Master,
        Class::Block => Type::Binary,
        Class::BlockVirtual => Type::Binary,
        Class::BlockAdditions => Type::Master,
        Class::BlockMore => Type::Master,
        Class::BlockAddID => Type::Unsigned,
        Class::BlockAdditional => Type::Binary,
        Class::BlockDuration => Type::Unsigned,
        Class::ReferencePriority => Type::Unsigned,
        Class::ReferenceBlock => Type::Signed,
        Class::ReferenceVirtual => Type::Signed,
        Class::CodecState => Type::Binary,
        Class::Slices => Type::Master,
        Class::TimeSlice => Type::Master,
        Class::LaceNumber => Type::Unsigned,
        Class::FrameNumber => Type::Unsigned,
        Class::BlockAdditionID => Type::Unsigned,
        Class::Delay => Type::Unsigned,
        Class::SliceDuration => Type::Unsigned,
        Class::ReferenceFrame => Type::Master,
        Class::ReferenceOffset => Type::Unsigned,
        Class::ReferenceTimeCode => Type::Unsigned,
        Class::EncryptedBlock => Type::Binary,
        Class::Tracks => Type::Master,
        Class::TrackEntry => Type::Master,
        Class::TrackNumber => Type::Unsigned,
        Class::TrackUID => Type::Unsigned,
        Class::TrackType => Type::Unsigned,
        Class::FlagEnabled => Type::Unsigned,
        Class::FlagDefault => Type::Unsigned,
        Class::FlagForced => Type::Unsigned,
        Class::FlagLacing => Type::Unsigned,
        Class::MinCache => Type::Unsigned,
        Class::MaxCache => Type::Unsigned,
        Class::DefaultDuration => Type::Unsigned,
        Class::TrackTimecodeScale => Type::Float,
        Class::TrackOffset => Type::Signed,
        Class::MaxBlockAdditionID => Type::Unsigned,
        Class::Name => Type::TextUtf8,
        Class::Language => Type::TextAscii,
        Class::CodecID => Type::TextAscii,
        Class::CodecPrivate => Type::Binary,
        Class::CodecName => Type::TextUtf8,
        Class::AttachmentLink => Type::Unsigned,
        Class::CodecSettings => Type::TextUtf8,
        Class::CodecInfoURL => Type::TextAscii,
        Class::CodecDownloadURL => Type::TextAscii,
        Class::CodecDecodeAll => Type::Unsigned,
        Class::TrackOverlay => Type::Unsigned,
        Class::TrackTranslate => Type::Master,
        Class::TrackTranslateEditionUID => Type::Unsigned,
        Class::TrackTranslateCodec => Type::Unsigned,
        Class::TrackTranslateTrackID => Type::Binary,
        Class::Video => Type::Master,
        Class::FlagInterlaced => Type::Unsigned,
        Class::StereoMode => Type::Unsigned,
        Class::OldStereoMode => Type::Unsigned,
        Class::PixelWidth => Type::Unsigned,
        Class::PixelHeight => Type::Unsigned,
        Class::PixelCropBottom => Type::Unsigned,
        Class::PixelCropTop => Type::Unsigned,
        Class::PixelCropLeft => Type::Unsigned,
        Class::PixelCropRight => Type::Unsigned,
        Class::DisplayWidth => Type::Unsigned,
        Class::DisplayHeight => Type::Unsigned,
        Class::DisplayUnit => Type::Unsigned,
        Class::AspectRatioType => Type::Unsigned,
        Class::ColourSpace => Type::Binary,
        Class::GammaValue => Type::Float,
        Class::FrameRate => Type::Float,
        Class::Audio => Type::Master,
        Class::SamplingFrequency => Type::Float,
        Class::OutputSamplingFrequency => Type::Float,
        Class::Channels => Type::Unsigned,
        Class::ChannelPositions => Type::Binary,
        Class::BitDepth => Type::Unsigned,
        Class::TrackOperation => Type::Master,
        Class::TrackCombinePlanes => Type::Master,
        Class::TrackPlane => Type::Master,
        Class::TrackPlaneUID => Type::Unsigned,
        Class::TrackPlaneType => Type::Unsigned,
        Class::TrackJoinBlocks => Type::Master,
        Class::TrackJoinUID => Type::Unsigned,
        Class::TrickTrackUID => Type::Unsigned,
        Class::TrickTrackSegmentUID => Type::Binary,
        Class::TrickTrackFlag => Type::Unsigned,
        Class::TrickMasterTrackUID => Type::Unsigned,
        Class::TrickMasterTrackSegmentUID => Type::Binary,
        Class::ContentEncodings => Type::Master,
        Class::ContentEncoding => Type::Master,
        Class::ContentEncodingOrder => Type::Unsigned,
        Class::ContentEncodingScope => Type::Unsigned,
        Class::ContentEncodingType => Type::Unsigned,
        Class::ContentCompression => Type::Master,
        Class::ContentCompAlgo => Type::Unsigned,
        Class::ContentCompSettings => Type::Binary,
        Class::ContentEncryption => Type::Master,
        Class::ContentEncAlgo => Type::Unsigned,
        Class::ContentEncKeyID => Type::Binary,
        Class::ContentSignature => Type::Binary,
        Class::ContentSigKeyID => Type::Binary,
        Class::ContentSigAlgo => Type::Unsigned,
        Class::ContentSigHashAlgo => Type::Unsigned,
        Class::Cues => Type::Master,
        Class::CuePoint => Type::Master,
        Class::CueTime => Type::Unsigned,
        Class::CueTrackPositions => Type::Master,
        Class::CueTrack => Type::Unsigned,
        Class::CueClusterPosition => Type::Unsigned,
        Class::CueBlockNumber => Type::Unsigned,
        Class::CueCodecState => Type::Unsigned,
        Class::CueReference => Type::Master,
        Class::CueRefTime => Type::Unsigned,
        Class::CueRefCluster => Type::Unsigned,
        Class::CueRefNumber => Type::Unsigned,
        Class::CueRefCodecState => Type::Unsigned,
        Class::Attachments => Type::Master,
        Class::AttachedFile => Type::Master,
        Class::FileDescription => Type::TextUtf8,
        Class::FileName => Type::TextUtf8,
        Class::FileMimeType => Type::TextAscii,
        Class::FileData => Type::Binary,
        Class::FileUID => Type::Unsigned,
        Class::FileReferral => Type::Binary,
        Class::FileUsedStartTime => Type::Unsigned,
        Class::FileUsedEndTime => Type::Unsigned,
        Class::Chapters => Type::Master,
        Class::EditionEntry => Type::Master,
        Class::EditionUID => Type::Unsigned,
        Class::EditionFlagHidden => Type::Unsigned,
        Class::EditionFlagDefault => Type::Unsigned,
        Class::EditionFlagOrdered => Type::Unsigned,
        Class::ChapterAtom => Type::Master,
        Class::ChapterUID => Type::Unsigned,
        Class::ChapterTimeStart => Type::Unsigned,
        Class::ChapterTimeEnd => Type::Unsigned,
        Class::ChapterFlagHidden => Type::Unsigned,
        Class::ChapterFlagEnabled => Type::Unsigned,
        Class::ChapterSegmentUID => Type::Binary,
        Class::ChapterSegmentEditionUID => Type::Unsigned,
        Class::ChapterPhysicalEquiv => Type::Unsigned,
        Class::ChapterTrack => Type::Master,
        Class::ChapterTrackNumber => Type::Unsigned,
        Class::ChapterDisplay => Type::Master,
        Class::ChapString => Type::TextUtf8,
        Class::ChapLanguage => Type::TextAscii,
        Class::ChapCountry => Type::TextAscii,
        Class::ChapProcess => Type::Master,
        Class::ChapProcessCodecID => Type::Unsigned,
        Class::ChapProcessPrivate => Type::Binary,
        Class::ChapProcessCommand => Type::Master,
        Class::ChapProcessTime => Type::Unsigned,
        Class::ChapProcessData => Type::Binary,
        Class::Tags => Type::Master,
        Class::Tag => Type::Master,
        Class::Targets => Type::Master,
        Class::TargetTypeValue => Type::Unsigned,
        Class::TargetType => Type::TextAscii,
        Class::TagTrackUID => Type::Unsigned,
        Class::TagEditionUID => Type::Unsigned,
        Class::TagChapterUID => Type::Unsigned,
        Class::TagAttachmentUID => Type::Unsigned,
        Class::SimpleTag => Type::Master,
        Class::TagName => Type::TextUtf8,
        Class::TagLanguage => Type::TextAscii,
        Class::TagDefault => Type::Unsigned,
        Class::TagString => Type::TextUtf8,
        Class::TagBinary => Type::Binary,
        Class::Unknown => Type::Binary,
    }
}

/// Looking up the ID of a known class gives that class back.
pub proof fn lemma_class_to_id_to_class(c: Class)
    requires
        c != Class::Unknown,
    ensures
        spec_id_to_class(spec_class_to_id(c)) == c,
{
}

/// An ID that the table knows is the ID of its class.
pub proof fn lemma_id_to_class_to_id(id: u64)
    requires
        spec_id_to_class(id) != Class::Unknown,
    ensures
        spec_class_to_id(spec_id_to_class(id)) == id,
{
}

/// The element table's rows for the EBML header, `Void`, `CRC32` and the signature elements: each ID looks up its
/// class, and that class has the listed payload type.
pub proof fn lemma_table_ebml_header()
    ensures
        spec_id_to_class(0x1A45DFA3) == Class::EBML && spec_class_to_type(Class::EBML) == Type::Master,
        spec_id_to_class(0x00004286) == Class::EBMLVersion && spec_class_to_type(Class::EBMLVersion) == Type::Unsigned,
        spec_id_to_class(0x000042F7) == Class::EBMLReadVersion && spec_class_to_type(Class::EBMLReadVersion) == Type::Unsigned,
        spec_id_to_class(0x000042F2) == Class::EBMLMaxIDLength && spec_class_to_type(Class::EBMLMaxIDLength) == Type::Unsigned,
        spec_id_to_class(0x000042F3) == Class::EBMLMaxSizeLength && spec_class_to_type(Class::EBMLMaxSizeLength) == Type::Unsigned,
        spec_id_to_class(0x00004282) == Class::DocType && spec_class_to_type(Class::DocType) == Type::TextAscii,
        spec_id_to_class(0x00004287) == Class::DocTypeVersion && spec_class_to_type(Class::DocTypeVersion) == Type::Unsigned,
        spec_id_to_class(0x00004285) == Class::DocTypeReadVersion && spec_class_to_type(Class::DocTypeReadVersion) == Type::Unsigned,
        spec_id_to_class(0x000000EC) == Class::Void && spec_class_to_type(Class::Void) == Type::Binary,
        spec_id_to_class(0x000000BF) == Class::CRC32 && spec_class_to_type(Class::CRC32) == Type::Binary,
        spec_id_to_class(0x1B538667) == Class::SignatureSlot && spec_class_to_type(Class::SignatureSlot) == Type::Master,
        spec_id_to_class(0x00007E8A) == Class::SignatureAlgo && spec_class_to_type(Class::SignatureAlgo) == Type::Unsigned,
        spec_id_to_class(0x00007E9A) == Class::SignatureHash && spec_class_to_type(Class::SignatureHash) == Type::Unsigned,
        spec_id_to_class(0x00007EA5) == Class::SignaturePublicKey && spec_class_to_type(Class::SignaturePublicKey) == Type::Binary,
        spec_id_to_class(0x00007EB5) == Class::Signature && spec_class_to_type(Class::Signature) == Type::Binary,
        spec_id_to_class(0x00007E5B) == Class::SignatureElements && spec_class_to_type(Class::SignatureElements) == Type::Master,
        spec_id_to_class(0x00007E7B) == Class::SignatureElementList && spec_class_to_type(Class::SignatureElementList) == Type::Master,
        spec_id_to_class(0x00006532) == Class::SignedElement && spec_class_to_type(Class::SignedElement) == Type::Binary,
{
}

/// The element table's rows for `Segment`, the seek head and the segment information: each ID looks up its
/// class, and that class has the listed payload type.
pub proof fn lemma_table_segment_info()
    ensures
        spec_id_to_class(0x18538067) == Class::Segment && spec_class_to_type(Class::Segment) == Type::Master,
        spec_id_to_class(0x114D9B74) == Class::SeekHead && spec_class_to_type(Class::SeekHead) == Type::Master,
        spec_id_to_class(0x00004DBB) == Class::Seek && spec_class_to_type(Class::Seek) == Type::Master,
        spec_id_to_class(0x000053AB) == Class::SeekID && spec_class_to_type(Class::SeekID) == Type::Binary,
        spec_id_to_class(0x000053AC) == Class::SeekPosition && spec_class_to_type(Class::SeekPosition) == Type::Unsigned,
        spec_id_to_class(0x1549A966) == Class::Info && spec_class_to_type(Class::Info) == Type::Master,
        spec_id_to_class(0x000073A4) == Class::SegmentUID && spec_class_to_type(Class::SegmentUID) == Type::Binary,
        spec_id_to_class(0x00007384) == Class::SegmentFilename && spec_class_to_type(Class::SegmentFilename) == Type::TextUtf8,
        spec_id_to_class(0x003CB923) == Class::PrevUID && spec_class_to_type(Class::PrevUID) == Type::Binary,
        spec_id_to_class(0x003C83AB) == Class::PrevFilename && spec_class_to_type(Class::PrevFilename) == Type::TextUtf8,
        spec_id_to_class(0x003EB923) == Class::NextUID && spec_class_to_type(Class::NextUID) == Type::Binary,
        spec_id_to_class(0x003E83BB) == Class::NextFilename && spec_class_to_type(Class::NextFilename) == Type::TextUtf8,
        spec_id_to_class(0x00004444) == Class::SegmentFamily && spec_class_to_type(Class::SegmentFamily) == Type::Binary,
        spec_id_to_class(0x00006924) == Class::ChapterTranslate && spec_class_to_type(Class::ChapterTranslate) == Type::Master,
        spec_id_to_class(0x000069FC) == Class::ChapterTranslateEditionUID && spec_class_to_type(Class::ChapterTranslateEditionUID) == Type::Unsigned,
        spec_id_to_class(0x000069BF) == Class::ChapterTranslateCodec && spec_class_to_type(Class::ChapterTranslateCodec) == Type::Unsigned,
        spec_id_to_class(0x000069A5) == Class::ChapterTranslateID && spec_class_to_type(Class::ChapterTranslateID) == Type::Binary,
        spec_id_to_class(0x002AD7B1) == Class::TimecodeScale && spec_class_to_type(Class::TimecodeScale) == Type::Unsigned,
        spec_id_to_class(0x00004489) == Class::Duration && spec_class_to_type(Class::Duration) == Type::Float,
        spec_id_to_class(0x00004461) == Class::DateUTC && spec_class_to_type(Class::DateUTC) == Type::Date,
        spec_id_to_class(0x00007BA9) == Class::Title && spec_class_to_type(Class::Title) == Type::TextUtf8,
        spec_id_to_class(0x00004D80) == Class::MuxingApp && spec_class_to_type(Class::MuxingApp) == Type::TextUtf8,
        spec_id_to_class(0x00005741) == Class::WritingApp && spec_class_to_type(Class::WritingApp) == Type::TextUtf8,
{
}

/// The element table's rows for clusters and their blocks: each ID looks up its
/// class, and that class has the listed payload type.
pub proof fn lemma_table_cluster()
    ensures
        spec_id_to_class(0x1F43B675) == Class::Cluster && spec_class_to_type(Class::Cluster) == Type::Master,
        spec_id_to_class(0x000000E7) == Class::Timecode && spec_class_to_type(Class::Timecode) == Type::Unsigned,
        spec_id_to_class(0x00005854) == Class::SilentTracks && spec_class_to_type(Class::SilentTracks) == Type::Master,
        spec_id_to_class(0x000058D7) == Class::SilentTrackNumber && spec_class_to_type(Class::SilentTrackNumber) == Type::Unsigned,
        spec_id_to_class(0x000000A7) == Class::Position && spec_class_to_type(Class::Position) == Type::Unsigned,
        spec_id_to_class(0x000000AB) == Class::PrevSize && spec_class_to_type(Class::PrevSize) == Type::Unsigned,
        spec_id_to_class(0x000000A3) == Class::SimpleBlock && spec_class_to_type(Class::SimpleBlock) == Type::Binary,
        spec_id_to_class(0x000000A0) == Class::BlockGroup && spec_class_to_type(Class::BlockGroup) == Type::Master,
        spec_id_to_class(0x000000A1) == Class::Block && spec_class_to_type(Class::Block) == Type::Binary,
        spec_id_to_class(0x000000A2) == Class::BlockVirtual && spec_class_to_type(Class::BlockVirtual) == Type::Binary,
        spec_id_to_class(0x000075A1) == Class::BlockAdditions && spec_class_to_type(Class::BlockAdditions) == Type::Master,
        spec_id_to_class(0x000000A6) == Class::BlockMore && spec_class_to_type(Class::BlockMore) == Type::Master,
        spec_id_to_class(0x000000EE) == Class::BlockAddID && spec_class_to_type(Class::BlockAddID) == Type::Unsigned,
        spec_id_to_class(0x000000A5) == Class::BlockAdditional && spec_class_to_type(Class::BlockAdditional) == Type::Binary,
        spec_id_to_class(0x0000009B) == Class::BlockDuration && spec_class_to_type(Class::BlockDuration) == Type::Unsigned,
        spec_id_to_class(0x000000FA) == Class::ReferencePriority && spec_class_to_type(Class::ReferencePriority) == Type::Unsigned,
        spec_id_to_class(0x000000FB) == Class::ReferenceBlock && spec_class_to_type(Class::ReferenceBlock) == Type::Signed,
        spec_id_to_class(0x000000FD) == Class::ReferenceVirtual && spec_class_to_type(Class::ReferenceVirtual) == Type::Signed,
        spec_id_to_class(0x000000A4) == Class::CodecState && spec_class_to_type(Class::CodecState) == Type::Binary,
        spec_id_to_class(0x0000008E) == Class::Slices && spec_class_to_type(Class::Slices) == Type::Master,
        spec_id_to_class(0x000000E8) == Class::TimeSlice && spec_class_to_type(Class::TimeSlice) == Type::Master,
        spec_id_to_class(0x000000CC) == Class::LaceNumber && spec_class_to_type(Class::LaceNumber) == Type::Unsigned,
        spec_id_to_class(0x000000CD) == Class::FrameNumber && spec_class_to_type(Class::FrameNumber) == Type::Unsigned,
        spec_id_to_class(0x000000CB) == Class::BlockAdditionID && spec_class_to_type(Class::BlockAdditionID) == Type::Unsigned,
        spec_id_to_class(0x000000CE) == Class::Delay && spec_class_to_type(Class::Delay) == Type::Unsigned,
        spec_id_to_class(0x000000CF) == Class::SliceDuration && spec_class_to_type(Class::SliceDuration) == Type::Unsigned,
        spec_id_to_class(0x000000C8) == Class::ReferenceFrame && spec_class_to_type(Class::ReferenceFrame) == Type::Master,
        spec_id_to_class(0x000000C9) == Class::ReferenceOffset && spec_class_to_type(Class::ReferenceOffset) == Type::Unsigned,
        spec_id_to_class(0x000000CA) == Class::ReferenceTimeCode && spec_class_to_type(Class::ReferenceTimeCode) == Type::Unsigned,
        spec_id_to_class(0x000000AF) == Class::EncryptedBlock && spec_class_to_type(Class::EncryptedBlock) == Type::Binary,
{
}

/// The element table's rows for `Tracks` and the general fields of a track entry: each ID looks up its
/// class, and that class has the listed payload type.
pub proof fn lemma_table_track_entry()
    ensures
        spec_id_to_class(0x1654AE6B) == Class::Tracks && spec_class_to_type(Class::Tracks) == Type::Master,
        spec_id_to_class(0x000000AE) == Class::TrackEntry && spec_class_to_type(Class::TrackEntry) == Type::Master,
        spec_id_to_class(0x000000D7) == Class::TrackNumber && spec_class_to_type(Class::TrackNumber) == Type::Unsigned,
        spec_id_to_class(0x000073C5) == Class::TrackUID && spec_class_to_type(Class::TrackUID) == Type::Unsigned,
        spec_id_to_class(0x00000083) == Class::TrackType && spec_class_to_type(Class::TrackType) == Type::Unsigned,
        spec_id_to_class(0x000000B9) == Class::FlagEnabled && spec_class_to_type(Class::FlagEnabled) == Type::Unsigned,
        spec_id_to_class(0x00000088) == Class::FlagDefault && spec_class_to_type(Class::FlagDefault) == Type::Unsigned,
        spec_id_to_class(0x000055AA) == Class::FlagForced && spec_class_to_type(Class::FlagForced) == Type::Unsigned,
        spec_id_to_class(0x0000009C) == Class::FlagLacing && spec_class_to_type(Class::FlagLacing) == Type::Unsigned,
        spec_id_to_class(0x00006DE7) == Class::MinCache && spec_class_to_type(Class::MinCache) == Type::Unsigned,
        spec_id_to_class(0x00006DF8) == Class::MaxCache && spec_class_to_type(Class::MaxCache) == Type::Unsigned,
        spec_id_to_class(0x0023E383) == Class::DefaultDuration && spec_class_to_type(Class::DefaultDuration) == Type::Unsigned,
        spec_id_to_class(0x0023314F) == Class::TrackTimecodeScale && spec_class_to_type(Class::TrackTimecodeScale) == Type::Float,
        spec_id_to_class(0x0000537F) == Class::TrackOffset && spec_class_to_type(Class::TrackOffset) == Type::Signed,
        spec_id_to_class(0x000055EE) == Class::MaxBlockAdditionID && spec_class_to_type(Class::MaxBlockAdditionID) == Type::Unsigned,
        spec_id_to_class(0x0000536E) == Class::Name && spec_class_to_type(Class::Name) == Type::TextUtf8,
        spec_id_to_class(0x0022B59C) == Class::Language && spec_class_to_type(Class::Language) == Type::TextAscii,
        spec_id_to_class(0x00000086) == Class::CodecID && spec_class_to_type(Class::CodecID) == Type::TextAscii,
        spec_id_to_class(0x000063A2) == Class::CodecPrivate && spec_class_to_type(Class::CodecPrivate) == Type::Binary,
        spec_id_to_class(0x00258688) == Class::CodecName && spec_class_to_type(Class::CodecName) == Type::TextUtf8,
        spec_id_to_class(0x00007446) == Class::AttachmentLink && spec_class_to_type(Class::AttachmentLink) == Type::Unsigned,
        spec_id_to_class(0x003A9697) == Class::CodecSettings && spec_class_to_type(Class::CodecSettings) == Type::TextUtf8,
        spec_id_to_class(0x003B4040) == Class::CodecInfoURL && spec_class_to_type(Class::CodecInfoURL) == Type::TextAscii,
        spec_id_to_class(0x0026B240) == Class::CodecDownloadURL && spec_class_to_type(Class::CodecDownloadURL) == Type::TextAscii,
        spec_id_to_class(0x000000AA) == Class::CodecDecodeAll && spec_class_to_type(Class::CodecDecodeAll) == Type::Unsigned,
        spec_id_to_class(0x00006FAB) == Class::TrackOverlay && spec_class_to_type(Class::TrackOverlay) == Type::Unsigned,
        spec_id_to_class(0x00006624) == Class::TrackTranslate && spec_class_to_type(Class::TrackTranslate) == Type::Master,
        spec_id_to_class(0x000066FC) == Class::TrackTranslateEditionUID && spec_class_to_type(Class::TrackTranslateEditionUID) == Type::Unsigned,
        spec_id_to_class(0x000066BF) == Class::TrackTranslateCodec && spec_class_to_type(Class::TrackTranslateCodec) == Type::Unsigned,
        spec_id_to_class(0x000066A5) == Class::TrackTranslateTrackID && spec_class_to_type(Class::TrackTranslateTrackID) == Type::Binary,
{
}

/// The element table's rows for the video, audio, operation and trick-play fields of a track entry: each ID looks up its
/// class, and that class has the listed payload type.
pub proof fn lemma_table_track_media()
    ensures
        spec_id_to_class(0x000000E0) == Class::Video && spec_class_to_type(Class::Video) == Type::Master,
        spec_id_to_class(0x0000009A) == Class::FlagInterlaced && spec_class_to_type(Class::FlagInterlaced) == Type::Unsigned,
        spec_id_to_class(0x000053B8) == Class::StereoMode && spec_class_to_type(Class::StereoMode) == Type::Unsigned,
        spec_id_to_class(0x000053B9) == Class::OldStereoMode && spec_class_to_type(Class::OldStereoMode) == Type::Unsigned,
        spec_id_to_class(0x000000B0) == Class::PixelWidth && spec_class_to_type(Class::PixelWidth) == Type::Unsigned,
        spec_id_to_class(0x000000BA) == Class::PixelHeight && spec_class_to_type(Class::PixelHeight) == Type::Unsigned,
        spec_id_to_class(0x000054AA) == Class::PixelCropBottom && spec_class_to_type(Class::PixelCropBottom) == Type::Unsigned,
        spec_id_to_class(0x000054BB) == Class::PixelCropTop && spec_class_to_type(Class::PixelCropTop) == Type::Unsigned,
        spec_id_to_class(0x000054CC) == Class::PixelCropLeft && spec_class_to_type(Class::PixelCropLeft) == Type::Unsigned,
        spec_id_to_class(0x000054DD) == Class::PixelCropRight && spec_class_to_type(Class::PixelCropRight) == Type::Unsigned,
        spec_id_to_class(0x000054B0) == Class::DisplayWidth && spec_class_to_type(Class::DisplayWidth) == Type::Unsigned,
        spec_id_to_class(0x000054BA) == Class::DisplayHeight && spec_class_to_type(Class::DisplayHeight) == Type::Unsigned,
        spec_id_to_class(0x000054B2) == Class::DisplayUnit && spec_class_to_type(Class::DisplayUnit) == Type::Unsigned,
        spec_id_to_class(0x000054B3) == Class::AspectRatioType && spec_class_to_type(Class::AspectRatioType) == Type::Unsigned,
        spec_id_to_class(0x002EB524) == Class::ColourSpace && spec_class_to_type(Class::ColourSpace) == Type::Binary,
        spec_id_to_class(0x002FB523) == Class::GammaValue && spec_class_to_type(Class::GammaValue) == Type::Float,
        spec_id_to_class(0x002383E3) == Class::FrameRate && spec_class_to_type(Class::FrameRate) == Type::Float,
        spec_id_to_class(0x000000E1) == Class::Audio && spec_class_to_type(Class::Audio) == Type::Master,
        spec_id_to_class(0x000000B5) == Class::SamplingFrequency && spec_class_to_type(Class::SamplingFrequency) == Type::Float,
        spec_id_to_class(0x000078B5) == Class::OutputSamplingFrequency && spec_class_to_type(Class::OutputSamplingFrequency) == Type::Float,
        spec_id_to_class(0x0000009F) == Class::Channels && spec_class_to_type(Class::Channels) == Type::Unsigned,
        spec_id_to_class(0x00007D7B) == Class::ChannelPositions && spec_class_to_type(Class::ChannelPositions) == Type::Binary,
        spec_id_to_class(0x00006264) == Class::BitDepth && spec_class_to_type(Class::BitDepth) == Type::Unsigned,
        spec_id_to_class(0x000000E2) == Class::TrackOperation && spec_class_to_type(Class::TrackOperation) == Type::Master,
        spec_id_to_class(0x000000E3) == Class::TrackCombinePlanes && spec_class_to_type(Class::TrackCombinePlanes) == Type::Master,
        spec_id_to_class(0x000000E4) == Class::TrackPlane && spec_class_to_type(Class::TrackPlane) == Type::Master,
        spec_id_to_class(0x000000E5) == Class::TrackPlaneUID && spec_class_to_type(Class::TrackPlaneUID) == Type::Unsigned,
        spec_id_to_class(0x000000E6) == Class::TrackPlaneType && spec_class_to_type(Class::TrackPlaneType) == Type::Unsigned,
        spec_id_to_class(0x000000E9) == Class::TrackJoinBlocks && spec_class_to_type(Class::TrackJoinBlocks) == Type::Master,
        spec_id_to_class(0x000000ED) == Class::TrackJoinUID && spec_class_to_type(Class::TrackJoinUID) == Type::Unsigned,
        spec_id_to_class(0x000000C0) == Class::TrickTrackUID && spec_class_to_type(Class::TrickTrackUID) == Type::Unsigned,
        spec_id_to_class(0x000000C1) == Class::TrickTrackSegmentUID && spec_class_to_type(Class::TrickTrackSegmentUID) == Type::Binary,
        spec_id_to_class(0x000000C6) == Class::TrickTrackFlag && spec_class_to_type(Class::TrickTrackFlag) == Type::Unsigned,
        spec_id_to_class(0x000000C7) == Class::TrickMasterTrackUID && spec_class_to_type(Class::TrickMasterTrackUID) == Type::Unsigned,
        spec_id_to_class(0x000000C4) == Class::TrickMasterTrackSegmentUID && spec_class_to_type(Class::TrickMasterTrackSegmentUID) == Type::Binary,
{
}

/// The element table's rows for content encodings and cues: each ID looks up its
/// class, and that class has the listed payload type.
pub proof fn lemma_table_encodings_cues()
    ensures
        spec_id_to_class(0x00006D80) == Class::ContentEncodings && spec_class_to_type(Class::ContentEncodings) == Type::Master,
        spec_id_to_class(0x00006240) == Class::ContentEncoding && spec_class_to_type(Class::ContentEncoding) == Type::Master,
        spec_id_to_class(0x00005031) == Class::ContentEncodingOrder && spec_class_to_type(Class::ContentEncodingOrder) == Type::Unsigned,
        spec_id_to_class(0x00005032) == Class::ContentEncodingScope && spec_class_to_type(Class::ContentEncodingScope) == Type::Unsigned,
        spec_id_to_class(0x00005033) == Class::ContentEncodingType && spec_class_to_type(Class::ContentEncodingType) == Type::Unsigned,
        spec_id_to_class(0x00005034) == Class::ContentCompression && spec_class_to_type(Class::ContentCompression) == Type::Master,
        spec_id_to_class(0x00004254) == Class::ContentCompAlgo && spec_class_to_type(Class::ContentCompAlgo) == Type::Unsigned,
        spec_id_to_class(0x00004255) == Class::ContentCompSettings && spec_class_to_type(Class::ContentCompSettings) == Type::Binary,
        spec_id_to_class(0x00005035) == Class::ContentEncryption && spec_class_to_type(Class::ContentEncryption) == Type::Master,
        spec_id_to_class(0x000047E1) == Class::ContentEncAlgo && spec_class_to_type(Class::ContentEncAlgo) == Type::Unsigned,
        spec_id_to_class(0x000047E2) == Class::ContentEncKeyID && spec_class_to_type(Class::ContentEncKeyID) == Type::Binary,
        spec_id_to_class(0x000047E3) == Class::ContentSignature && spec_class_to_type(Class::ContentSignature) == Type::Binary,
        spec_id_to_class(0x000047E4) == Class::ContentSigKeyID && spec_class_to_type(Class::ContentSigKeyID) == Type::Binary,
        spec_id_to_class(0x000047E5) == Class::ContentSigAlgo && spec_class_to_type(Class::ContentSigAlgo) == Type::Unsigned,
        spec_id_to_class(0x000047E6) == Class::ContentSigHashAlgo && spec_class_to_type(Class::ContentSigHashAlgo) == Type::Unsigned,
        spec_id_to_class(0x1C53BB6B) == Class::Cues && spec_class_to_type(Class::Cues) == Type::Master,
        spec_id_to_class(0x000000BB) == Class::CuePoint && spec_class_to_type(Class::CuePoint) == Type::Master,
        spec_id_to_class(0x000000B3) == Class::CueTime && spec_class_to_type(Class::CueTime) == Type::Unsigned,
        spec_id_to_class(0x000000B7) == Class::CueTrackPositions && spec_class_to_type(Class::CueTrackPositions) == Type::Master,
        spec_id_to_class(0x000000F7) == Class::CueTrack && spec_class_to_type(Class::CueTrack) == Type::Unsigned,
        spec_id_to_class(0x000000F1) == Class::CueClusterPosition && spec_class_to_type(Class::CueClusterPosition) == Type::Unsigned,
        spec_id_to_class(0x00005378) == Class::CueBlockNumber && spec_class_to_type(Class::CueBlockNumber) == Type::Unsigned,
        spec_id_to_class(0x000000EA) == Class::CueCodecState && spec_class_to_type(Class::CueCodecState) == Type::Unsigned,
        spec_id_to_class(0x000000DB) == Class::CueReference && spec_class_to_type(Class::CueReference) == Type::Master,
        spec_id_to_class(0x00000096) == Class::CueRefTime && spec_class_to_type(Class::CueRefTime) == Type::Unsigned,
        spec_id_to_class(0x00000097) == Class::CueRefCluster && spec_class_to_type(Class::CueRefCluster) == Type::Unsigned,
        spec_id_to_class(0x0000535F) == Class::CueRefNumber && spec_class_to_type(Class::CueRefNumber) == Type::Unsigned,
        spec_id_to_class(0x000000EB) == Class::CueRefCodecState && spec_class_to_type(Class::CueRefCodecState) == Type::Unsigned,
{
}

/// The element table's rows for attachments: each ID looks up its
/// class, and that class has the listed payload type.
pub proof fn lemma_table_attachments()
    ensures
        spec_id_to_class(0x1941A469) == Class::Attachments && spec_class_to_type(Class::Attachments) == Type::Master,
        spec_id_to_class(0x000061A7) == Class::AttachedFile && spec_class_to_type(Class::AttachedFile) == Type::Master,
        spec_id_to_class(0x0000467E) == Class::FileDescription && spec_class_to_type(Class::FileDescription) == Type::TextUtf8,
        spec_id_to_class(0x0000466E) == Class::FileName && spec_class_to_type(Class::FileName) == Type::TextUtf8,
        spec_id_to_class(0x00004660) == Class::FileMimeType && spec_class_to_type(Class::FileMimeType) == Type::TextAscii,
        spec_id_to_class(0x0000465C) == Class::FileData && spec_class_to_type(Class::FileData) == Type::Binary,
        spec_id_to_class(0x000046AE) == Class::FileUID && spec_class_to_type(Class::FileUID) == Type::Unsigned,
        spec_id_to_class(0x00004675) == Class::FileReferral && spec_class_to_type(Class::FileReferral) == Type::Binary,
        spec_id_to_class(0x00004661) == Class::FileUsedStartTime && spec_class_to_type(Class::FileUsedStartTime) == Type::Unsigned,
        spec_id_to_class(0x00004662) == Class::FileUsedEndTime && spec_class_to_type(Class::FileUsedEndTime) == Type::Unsigned,
{
}

/// The element table's rows for chapters: each ID looks up its
/// class, and that class has the listed payload type.
pub proof fn lemma_table_chapters()
    ensures
        spec_id_to_class(0x1043A770) == Class::Chapters && spec_class_to_type(Class::Chapters) == Type::Master,
        spec_id_to_class(0x000045B9) == Class::EditionEntry && spec_class_to_type(Class::EditionEntry) == Type::Master,
        spec_id_to_class(0x000045BC) == Class::EditionUID && spec_class_to_type(Class::EditionUID) == Type::Unsigned,
        spec_id_to_class(0x000045BD) == Class::EditionFlagHidden && spec_class_to_type(Class::EditionFlagHidden) == Type::Unsigned,
        spec_id_to_class(0x000045DB) == Class::EditionFlagDefault && spec_class_to_type(Class::EditionFlagDefault) == Type::Unsigned,
        spec_id_to_class(0x000045DD) == Class::EditionFlagOrdered && spec_class_to_type(Class::EditionFlagOrdered) == Type::Unsigned,
        spec_id_to_class(0x000000B6) == Class::ChapterAtom && spec_class_to_type(Class::ChapterAtom) == Type::Master,
        spec_id_to_class(0x000073C4) == Class::ChapterUID && spec_class_to_type(Class::ChapterUID) == Type::Unsigned,
        spec_id_to_class(0x00000091) == Class::ChapterTimeStart && spec_class_to_type(Class::ChapterTimeStart) == Type::Unsigned,
        spec_id_to_class(0x00000092) == Class::ChapterTimeEnd && spec_class_to_type(Class::ChapterTimeEnd) == Type::Unsigned,
        spec_id_to_class(0x00000098) == Class::ChapterFlagHidden && spec_class_to_type(Class::ChapterFlagHidden) == Type::Unsigned,
        spec_id_to_class(0x00004598) == Class::ChapterFlagEnabled && spec_class_to_type(Class::ChapterFlagEnabled) == Type::Unsigned,
        spec_id_to_class(0x00006E67) == Class::ChapterSegmentUID && spec_class_to_type(Class::ChapterSegmentUID) == Type::Binary,
        spec_id_to_class(0x00006EBC) == Class::ChapterSegmentEditionUID && spec_class_to_type(Class::ChapterSegmentEditionUID) == Type::Unsigned,
        spec_id_to_class(0x000063C3) == Class::ChapterPhysicalEquiv && spec_class_to_type(Class::ChapterPhysicalEquiv) == Type::Unsigned,
        spec_id_to_class(0x0000008F) == Class::ChapterTrack && spec_class_to_type(Class::ChapterTrack) == Type::Master,
        spec_id_to_class(0x00000089) == Class::ChapterTrackNumber && spec_class_to_type(Class::ChapterTrackNumber) == Type::Unsigned,
        spec_id_to_class(0x00000080) == Class::ChapterDisplay && spec_class_to_type(Class::ChapterDisplay) == Type::Master,
        spec_id_to_class(0x00000085) == Class::ChapString && spec_class_to_type(Class::ChapString) == Type::TextUtf8,
        spec_id_to_class(0x0000437C) == Class::ChapLanguage && spec_class_to_type(Class::ChapLanguage) == Type::TextAscii,
        spec_id_to_class(0x0000437E) == Class::ChapCountry && spec_class_to_type(Class::ChapCountry) == Type::TextAscii,
        spec_id_to_class(0x00006944) == Class::ChapProcess && spec_class_to_type(Class::ChapProcess) == Type::Master,
        spec_id_to_class(0x00006955) == Class::ChapProcessCodecID && spec_class_to_type(Class::ChapProcessCodecID) == Type::Unsigned,
        spec_id_to_class(0x0000450D) == Class::ChapProcessPrivate && spec_class_to_type(Class::ChapProcessPrivate) == Type::Binary,
        spec_id_to_class(0x00006911) == Class::ChapProcessCommand && spec_class_to_type(Class::ChapProcessCommand) == Type::Master,
        spec_id_to_class(0x00006922) == Class::ChapProcessTime && spec_class_to_type(Class::ChapProcessTime) == Type::Unsigned,
        spec_id_to_class(0x00006933) == Class::ChapProcessData && spec_class_to_type(Class::ChapProcessData) == Type::Binary,
{
}

/// The element table's rows for tags: each ID looks up its
/// class, and that class has the listed payload type.
/// An element of an ID outside the table is `Unknown`, with a binary payload.
pub proof fn lemma_table_tags()
    ensures
        spec_id_to_class(0x1254C367) == Class::Tags && spec_class_to_type(Class::Tags) == Type::Master,
        spec_id_to_class(0x00007373) == Class::Tag && spec_class_to_type(Class::Tag) == Type::Master,
        spec_id_to_class(0x000063C0) == Class::Targets && spec_class_to_type(Class::Targets) == Type::Master,
        spec_id_to_class(0x000068CA) == Class::TargetTypeValue && spec_class_to_type(Class::TargetTypeValue) == Type::Unsigned,
        spec_id_to_class(0x000063CA) == Class::TargetType && spec_class_to_type(Class::TargetType) == Type::TextAscii,
        spec_id_to_class(0x000063C5) == Class::TagTrackUID && spec_class_to_type(Class::TagTrackUID) == Type::Unsigned,
        spec_id_to_class(0x000063C9) == Class::TagEditionUID && spec_class_to_type(Class::TagEditionUID) == Type::Unsigned,
        spec_id_to_class(0x000063C4) == Class::TagChapterUID && spec_class_to_type(Class::TagChapterUID) == Type::Unsigned,
        spec_id_to_class(0x000063C6) == Class::TagAttachmentUID && spec_class_to_type(Class::TagAttachmentUID) == Type::Unsigned,
        spec_id_to_class(0x000067C8) == Class::SimpleTag && spec_class_to_type(Class::SimpleTag) == Type::Master,
        spec_id_to_class(0x000045A3) == Class::TagName && spec_class_to_type(Class::TagName) == Type::TextUtf8,
        spec_id_to_class(0x0000447A) == Class::TagLanguage && spec_class_to_type(Class::TagLanguage) == Type::TextAscii,
        spec_id_to_class(0x00004484) == Class::TagDefault && spec_class_to_type(Class::TagDefault) == Type::Unsigned,
        spec_id_to_class(0x00004487) == Class::TagString && spec_class_to_type(Class::TagString) == Type::TextUtf8,
        spec_id_to_class(0x00004485) == Class::TagBinary && spec_class_to_type(Class::TagBinary) == Type::Binary,
        spec_class_to_type(Class::Unknown) == Type::Binary,
{
}

/// The name of a class, as the element table spells it.
pub open spec fn spec_class_name(c: Class) -> Seq<char> {
    match c {
        Class::EBML => "EBML"@,
        Class::EBMLVersion => "EBMLVersion"@,
        Class::EBMLReadVersion => "EBMLReadVersion"@,
        Class::EBMLMaxIDLength => "EBMLMaxIDLength"@,
        Class::EBMLMaxSizeLength => "EBMLMaxSizeLength"@,
        Class::DocType => "DocType"@,
        Class::DocTypeVersion => "DocTypeVersion"@,
        Class::DocTypeReadVersion => "DocTypeReadVersion"@,
        Class::Void => "Void"@,
        Class::CRC32 => "CRC32"@,
        Class::SignatureSlot => "SignatureSlot"@,
        Class::SignatureAlgo => "SignatureAlgo"@,
        Class::SignatureHash => "SignatureHash"@,
        Class::SignaturePublicKey => "SignaturePublicKey"@,
        Class::Signature => "Signature"@,
        Class::SignatureElements => "SignatureElements"@,
        Class::SignatureElementList => "SignatureElementList"@,
        Class::SignedElement => "SignedElement"@,
        Class::Segment => "Segment"@,
        Class::SeekHead => "SeekHead"@,
        Class::Seek => "Seek"@,
        Class::SeekID => "SeekID"@,
        Class::SeekPosition => "SeekPosition"@,
        Class::Info => "Info"@,
        Class::SegmentUID => "SegmentUID"@,
        Class::SegmentFilename => "SegmentFilename"@,
        Class::PrevUID => "PrevUID"@,
        Class::PrevFilename => "PrevFilename"@,
        Class::NextUID => "NextUID"@,
        Class::NextFilename => "NextFilename"@,
        Class::SegmentFamily => "SegmentFamily"@,
        Class::ChapterTranslate => "ChapterTranslate"@,
        Class::ChapterTranslateEditionUID => "ChapterTranslateEditionUID"@,
        Class::ChapterTranslateCodec => "ChapterTranslateCodec"@,
        Class::ChapterTranslateID => "ChapterTranslateID"@,
        Class::TimecodeScale => "TimecodeScale"@,
        Class::Duration => "Duration"@,
        Class::DateUTC => "DateUTC"@,
        Class::Title => "Title"@,
        Class::MuxingApp => "MuxingApp"@,
        Class::WritingApp => "WritingApp"@,
        Class::Cluster => "Cluster"@,
        Class::Timecode => "Timecode"@,
        Class::SilentTracks => "SilentTracks"@,
        Class::SilentTrackNumber => "SilentTrackNumber"@,
        Class::Position => "Position"@,
        Class::PrevSize => "PrevSize"@,
        Class::SimpleBlock => "SimpleBlock"@,
        Class::BlockGroup => "BlockGroup"@,
        Class::Block => "Block"@,
        Class::BlockVirtual => "BlockVirtual"@,
        Class::BlockAdditions => "BlockAdditions"@,
        Class::BlockMore => "BlockMore"@,
        Class::BlockAddID => "BlockAddID"@,
        Class::BlockAdditional => "BlockAdditional"@,
        Class::BlockDuration => "BlockDuration"@,
        Class::ReferencePriority => "ReferencePriority"@,
        Class::ReferenceBlock => "ReferenceBlock"@,
        Class::ReferenceVirtual => "ReferenceVirtual"@,
        Class::CodecState => "CodecState"@,
        Class::Slices => "Slices"@,
        Class::TimeSlice => "TimeSlice"@,
        Class::LaceNumber => "LaceNumber"@,
        Class::FrameNumber => "FrameNumber"@,
        Class::BlockAdditionID => "BlockAdditionID"@,
        Class::Delay => "Delay"@,
        Class::SliceDuration => "SliceDuration"@,
        Class::ReferenceFrame => "ReferenceFrame"@,
        Class::ReferenceOffset => "ReferenceOffset"@,
        Class::ReferenceTimeCode => "ReferenceTimeCode"@,
        Class::EncryptedBlock => "EncryptedBlock"@,
        Class::Tracks => "Tracks"@,
        Class::TrackEntry => "TrackEntry"@,
        Class::TrackNumber => "TrackNumber"@,
        Class::TrackUID => "TrackUID"@,
        Class::TrackType => "TrackType"@,
        Class::FlagEnabled => "FlagEnabled"@,
        Class::FlagDefault => "FlagDefault"@,
        Class::FlagForced => "FlagForced"@,
        Class::FlagLacing => "FlagLacing"@,
        Class::MinCache => "MinCache"@,
        Class::MaxCache => "MaxCache"@,
        Class::DefaultDuration => "DefaultDuration"@,
        Class::TrackTimecodeScale => "TrackTimecodeScale"@,
        Class::TrackOffset => "TrackOffset"@,
        Class::MaxBlockAdditionID => "MaxBlockAdditionID"@,
        Class::Name => "Name"@,
        Class::Language => "Language"@,
        Class::CodecID => "CodecID"@,
        Class::CodecPrivate => "CodecPrivate"@,
        Class::CodecName => "CodecName"@,
        Class::AttachmentLink => "AttachmentLink"@,
        Class::CodecSettings => "CodecSettings"@,
        Class::CodecInfoURL => "CodecInfoURL"@,
        Class::CodecDownloadURL => "CodecDownloadURL"@,
        Class::CodecDecodeAll => "CodecDecodeAll"@,
        Class::TrackOverlay => "TrackOverlay"@,
        Class::TrackTranslate => "TrackTranslate"@,
        Class::TrackTranslateEditionUID => "TrackTranslateEditionUID"@,
        Class::TrackTranslateCodec => "TrackTranslateCodec"@,
        Class::TrackTranslateTrackID => "TrackTranslateTrackID"@,
        Class::Video => "Video"@,
        Class::FlagInterlaced => "FlagInterlaced"@,
        Class::StereoMode => "StereoMode"@,
        Class::OldStereoMode => "OldStereoMode"@,
        Class::PixelWidth => "PixelWidth"@,
        Class::PixelHeight => "PixelHeight"@,
        Class::PixelCropBottom => "PixelCropBottom"@,
        Class::PixelCropTop => "PixelCropTop"@,
        Class::PixelCropLeft => "PixelCropLeft"@,
        Class::PixelCropRight => "PixelCropRight"@,
        Class::DisplayWidth => "DisplayWidth"@,
        Class::DisplayHeight => "DisplayHeight"@,
        Class::DisplayUnit => "DisplayUnit"@,
        Class::AspectRatioType => "AspectRatioType"@,
        Class::ColourSpace => "ColourSpace"@,
        Class::GammaValue => "GammaValue"@,
        Class::FrameRate => "FrameRate"@,
        Class::Audio => "Audio"@,
        Class::SamplingFrequency => "SamplingFrequency"@,
        Class::OutputSamplingFrequency => "OutputSamplingFrequency"@,
        Class::Channels => "Channels"@,
        Class::ChannelPositions => "ChannelPositions"@,
        Class::BitDepth => "BitDepth"@,
        Class::TrackOperation => "TrackOperation"@,
        Class::TrackCombinePlanes => "TrackCombinePlanes"@,
        Class::TrackPlane => "TrackPlane"@,
        Class::TrackPlaneUID => "TrackPlaneUID"@,
        Class::TrackPlaneType => "TrackPlaneType"@,
        Class::TrackJoinBlocks => "TrackJoinBlocks"@,
        Class::TrackJoinUID => "TrackJoinUID"@,
        Class::TrickTrackUID => "TrickTrackUID"@,
        Class::TrickTrackSegmentUID => "TrickTrackSegmentUID"@,
        Class::TrickTrackFlag => "TrickTrackFlag"@,
        Class::TrickMasterTrackUID => "TrickMasterTrackUID"@,
        Class::TrickMasterTrackSegmentUID => "TrickMasterTrackSegmentUID"@,
        Class::ContentEncodings => "ContentEncodings"@,
        Class::ContentEncoding => "ContentEncoding"@,
        Class::ContentEncodingOrder => "ContentEncodingOrder"@,
        Class::ContentEncodingScope => "ContentEncodingScope"@,
        Class::ContentEncodingType => "ContentEncodingType"@,
        Class::ContentCompression => "ContentCompression"@,
        Class::ContentCompAlgo => "ContentCompAlgo"@,
        Class::ContentCompSettings => "ContentCompSettings"@,
        Class::ContentEncryption => "ContentEncryption"@,
        Class::ContentEncAlgo => "ContentEncAlgo"@,
        Class::ContentEncKeyID => "ContentEncKeyID"@,
        Class::ContentSignature => "ContentSignature"@,
        Class::ContentSigKeyID => "ContentSigKeyID"@,
        Class::ContentSigAlgo => "ContentSigAlgo"@,
        Class::ContentSigHashAlgo => "ContentSigHashAlgo"@,
        Class::Cues => "Cues"@,
        Class::CuePoint => "CuePoint"@,
        Class::CueTime => "CueTime"@,
        Class::CueTrackPositions => "CueTrackPositions"@,
        Class::CueTrack => "CueTrack"@,
        Class::CueClusterPosition => "CueClusterPosition"@,
        Class::CueBlockNumber => "CueBlockNumber"@,
        Class::CueCodecState => "CueCodecState"@,
        Class::CueReference => "CueReference"@,
        Class::CueRefTime => "CueRefTime"@,
        Class::CueRefCluster => "CueRefCluster"@,
        Class::CueRefNumber => "CueRefNumber"@,
        Class::CueRefCodecState => "CueRefCodecState"@,
        Class::Attachments => "Attachments"@,
        Class::AttachedFile => "AttachedFile"@,
        Class::FileDescription => "FileDescription"@,
        Class::FileName => "FileName"@,
        Class::FileMimeType => "FileMimeType"@,
        Class::FileData => "FileData"@,
        Class::FileUID => "FileUID"@,
        Class::FileReferral => "FileReferral"@,
        Class::FileUsedStartTime => "FileUsedStartTime"@,
        Class::FileUsedEndTime => "FileUsedEndTime"@,
        Class::Chapters => "Chapters"@,
        Class::EditionEntry => "EditionEntry"@,
        Class::EditionUID => "EditionUID"@,
        Class::EditionFlagHidden => "EditionFlagHidden"@,
        Class::EditionFlagDefault => "EditionFlagDefault"@,
        Class::EditionFlagOrdered => "EditionFlagOrdered"@,
        Class::ChapterAtom => "ChapterAtom"@,
        Class::ChapterUID => "ChapterUID"@,
        Class::ChapterTimeStart => "ChapterTimeStart"@,
        Class::ChapterTimeEnd => "ChapterTimeEnd"@,
        Class::ChapterFlagHidden => "ChapterFlagHidden"@,
        Class::ChapterFlagEnabled => "ChapterFlagEnabled"@,
        Class::ChapterSegmentUID => "ChapterSegmentUID"@,
        Class::ChapterSegmentEditionUID => "ChapterSegmentEditionUID"@,
        Class::ChapterPhysicalEquiv => "ChapterPhysicalEquiv"@,
        Class::ChapterTrack => "ChapterTrack"@,
        Class::ChapterTrackNumber => "ChapterTrackNumber"@,
        Class::ChapterDisplay => "ChapterDisplay"@,
        Class::ChapString => "ChapString"@,
        Class::ChapLanguage => "ChapLanguage"@,
        Class::ChapCountry => "ChapCountry"@,
        Class::ChapProcess => "ChapProcess"@,
        Class::ChapProcessCodecID => "ChapProcessCodecID"@,
        Class::ChapProcessPrivate => "ChapProcessPrivate"@,
        Class::ChapProcessCommand => "ChapProcessCommand"@,
        Class::ChapProcessTime => "ChapProcessTime"@,
        Class::ChapProcessData => "ChapProcessData"@,
        Class::Tags => "Tags"@,
        Class::Tag => "Tag"@,
        Class::Targets => "Targets"@,
        Class::TargetTypeValue => "TargetTypeValue"@,
        Class::TargetType => "TargetType"@,
        Class::TagTrackUID => "TagTrackUID"@,
        Class::TagEditionUID => "TagEditionUID"@,
        Class::TagChapterUID => "TagChapterUID"@,
        Class::TagAttachmentUID => "TagAttachmentUID"@,
        Class::SimpleTag => "SimpleTag"@,
        Class::TagName => "TagName"@,
        Class::TagLanguage => "TagLanguage"@,
        Class::TagDefault => "TagDefault"@,
        Class::TagString => "TagString"@,
        Class::TagBinary => "TagBinary"@,
        Class::Unknown => "Unknown"@,
    }
}

/// The name of a class, as the element table spells it.
pub fn class_name(c: Class) -> (s: &'static str)
    ensures
        s@ == spec_class_name(c),
{
    match c {
        Class::EBML => "EBML",
        Class::EBMLVersion => "EBMLVersion",
        Class::EBMLReadVersion => "EBMLReadVersion",
        Class::EBMLMaxIDLength => "EBMLMaxIDLength",
        Class::EBMLMaxSizeLength => "EBMLMaxSizeLength",
        Class::DocType => "DocType",
        Class::DocTypeVersion => "DocTypeVersion",
        Class::DocTypeReadVersion => "DocTypeReadVersion",
        Class::Void => "Void",
        Class::CRC32 => "CRC32",
        Class::SignatureSlot => "SignatureSlot",
        Class::SignatureAlgo => "SignatureAlgo",
        Class::SignatureHash => "SignatureHash",
        Class::SignaturePublicKey => "SignaturePublicKey",
        Class::Signature => "Signature",
        Class::SignatureElements => "SignatureElements",
        Class::SignatureElementList => "SignatureElementList",
        Class::SignedElement => "SignedElement",
        Class::Segment => "Segment",
        Class::SeekHead => "SeekHead",
        Class::Seek => "Seek",
        Class::SeekID => "SeekID",
        Class::SeekPosition => "SeekPosition",
        Class::Info => "Info",
        Class::SegmentUID => "SegmentUID",
        Class::SegmentFilename => "SegmentFilename",
        Class::PrevUID => "PrevUID",
        Class::PrevFilename => "PrevFilename",
        Class::NextUID => "NextUID",
        Class::NextFilename => "NextFilename",
        Class::SegmentFamily => "SegmentFamily",
        Class::ChapterTranslate => "ChapterTranslate",
        Class::ChapterTranslateEditionUID => "ChapterTranslateEditionUID",
        Class::ChapterTranslateCodec => "ChapterTranslateCodec",
        Class::ChapterTranslateID => "ChapterTranslateID",
        Class::TimecodeScale => "TimecodeScale",
        Class::Duration => "Duration",
        Class::DateUTC => "DateUTC",
        Class::Title => "Title",
        Class::MuxingApp => "MuxingApp",
        Class::WritingApp => "WritingApp",
        Class::Cluster => "Cluster",
        Class::Timecode => "Timecode",
        Class::SilentTracks => "SilentTracks",
        Class::SilentTrackNumber => "SilentTrackNumber",
        Class::Position => "Position",
        Class::PrevSize => "PrevSize",
        Class::SimpleBlock => "SimpleBlock",
        Class::BlockGroup => "BlockGroup",
        Class::Block => "Block",
        Class::BlockVirtual => "BlockVirtual",
        Class::BlockAdditions => "BlockAdditions",
        Class::BlockMore => "BlockMore",
        Class::BlockAddID => "BlockAddID",
        Class::BlockAdditional => "BlockAdditional",
        Class::BlockDuration => "BlockDuration",
        Class::ReferencePriority => "ReferencePriority",
        Class::ReferenceBlock => "ReferenceBlock",
        Class::ReferenceVirtual => "ReferenceVirtual",
        Class::CodecState => "CodecState",
        Class::Slices => "Slices",
        Class::TimeSlice => "TimeSlice",
        Class::LaceNumber => "LaceNumber",
        Class::FrameNumber => "FrameNumber",
        Class::BlockAdditionID => "BlockAdditionID",
        Class::Delay => "Delay",
        Class::SliceDuration => "SliceDuration",
        Class::ReferenceFrame => "ReferenceFrame",
        Class::ReferenceOffset => "ReferenceOffset",
        Class::ReferenceTimeCode => "ReferenceTimeCode",
        Class::EncryptedBlock => "EncryptedBlock",
        Class::Tracks => "Tracks",
        Class::TrackEntry => "TrackEntry",
        Class::TrackNumber => "TrackNumber",
        Class::TrackUID => "TrackUID",
        Class::TrackType => "TrackType",
        Class::FlagEnabled => "FlagEnabled",
        Class::FlagDefault => "FlagDefault",
        Class::FlagForced => "FlagForced",
        Class::FlagLacing => "FlagLacing",
        Class::MinCache => "MinCache",
        Class::MaxCache => "MaxCache",
        Class::DefaultDuration => "DefaultDuration",
        Class::TrackTimecodeScale => "TrackTimecodeScale",
        Class::TrackOffset => "TrackOffset",
        Class::MaxBlockAdditionID => "MaxBlockAdditionID",
        Class::Name => "Name",
        Class::Language => "Language",
        Class::CodecID => "CodecID",
        Class::CodecPrivate => "CodecPrivate",
        Class::CodecName => "CodecName",
        Class::AttachmentLink => "AttachmentLink",
        Class::CodecSettings => "CodecSettings",
        Class::CodecInfoURL => "CodecInfoURL",
        Class::CodecDownloadURL => "CodecDownloadURL",
        Class::CodecDecodeAll => "CodecDecodeAll",
        Class::TrackOverlay => "TrackOverlay",
        Class::TrackTranslate => "TrackTranslate",
        Class::TrackTranslateEditionUID => "TrackTranslateEditionUID",
        Class::TrackTranslateCodec => "TrackTranslateCodec",
        Class::TrackTranslateTrackID => "TrackTranslateTrackID",
        Class::Video => "Video",
        Class::FlagInterlaced => "FlagInterlaced",
        Class::StereoMode => "StereoMode",
        Class::OldStereoMode => "OldStereoMode",
        Class::PixelWidth => "PixelWidth",
        Class::PixelHeight => "PixelHeight",
        Class::PixelCropBottom => "PixelCropBottom",
        Class::PixelCropTop => "PixelCropTop",
        Class::PixelCropLeft => "PixelCropLeft",
        Class::PixelCropRight => "PixelCropRight",
        Class::DisplayWidth => "DisplayWidth",
        Class::DisplayHeight => "DisplayHeight",
        Class::DisplayUnit => "DisplayUnit",
        Class::AspectRatioType => "AspectRatioType",
        Class::ColourSpace => "ColourSpace",
        Class::GammaValue => "GammaValue",
        Class::FrameRate => "FrameRate",
        Class::Audio => "Audio",
        Class::SamplingFrequency => "SamplingFrequency",
        Class::OutputSamplingFrequency => "OutputSamplingFrequency",
        Class::Channels => "Channels",
        Class::ChannelPositions => "ChannelPositions",
        Class::BitDepth => "BitDepth",
        Class::TrackOperation => "TrackOperation",
        Class::TrackCombinePlanes => "TrackCombinePlanes",
        Class::TrackPlane => "TrackPlane",
        Class::TrackPlaneUID => "TrackPlaneUID",
        Class::TrackPlaneType => "TrackPlaneType",
        Class::TrackJoinBlocks => "TrackJoinBlocks",
        Class::TrackJoinUID => "TrackJoinUID",
        Class::TrickTrackUID => "TrickTrackUID",
        Class::TrickTrackSegmentUID => "TrickTrackSegmentUID",
        Class::TrickTrackFlag => "TrickTrackFlag",
        Class::TrickMasterTrackUID => "TrickMasterTrackUID",
        Class::TrickMasterTrackSegmentUID => "TrickMasterTrackSegmentUID",
        Class::ContentEncodings => "ContentEncodings",
        Class::ContentEncoding => "ContentEncoding",
        Class::ContentEncodingOrder => "ContentEncodingOrder",
        Class::ContentEncodingScope => "ContentEncodingScope",
        Class::ContentEncodingType => "ContentEncodingType",
        Class::ContentCompression => "ContentCompression",
        Class::ContentCompAlgo => "ContentCompAlgo",
        Class::ContentCompSettings => "ContentCompSettings",
        Class::ContentEncryption => "ContentEncryption",
        Class::ContentEncAlgo => "ContentEncAlgo",
        Class::ContentEncKeyID => "ContentEncKeyID",
        Class::ContentSignature => "ContentSignature",
        Class::ContentSigKeyID => "ContentSigKeyID",
        Class::ContentSigAlgo => "ContentSigAlgo",
        Class::ContentSigHashAlgo => "ContentSigHashAlgo",
        Class::Cues => "Cues",
        Class::CuePoint => "CuePoint",
        Class::CueTime => "CueTime",
        Class::CueTrackPositions => "CueTrackPositions",
        Class::CueTrack => "CueTrack",
        Class::CueClusterPosition => "CueClusterPosition",
        Class::CueBlockNumber => "CueBlockNumber",
        Class::CueCodecState => "CueCodecState",
        Class::CueReference => "CueReference",
        Class::CueRefTime => "CueRefTime",
        Class::CueRefCluster => "CueRefCluster",
        Class::CueRefNumber => "CueRefNumber",
        Class::CueRefCodecState => "CueRefCodecState",
        Class::Attachments => "Attachments",
        Class::AttachedFile => "AttachedFile",
        Class::FileDescription => "FileDescription",
        Class::FileName => "FileName",
        Class::FileMimeType => "FileMimeType",
        Class::FileData => "FileData",
        Class::FileUID => "FileUID",
        Class::FileReferral => "FileReferral",
        Class::FileUsedStartTime => "FileUsedStartTime",
        Class::FileUsedEndTime => "FileUsedEndTime",
        Class::Chapters => "Chapters",
        Class::EditionEntry => "EditionEntry",
        Class::EditionUID => "EditionUID",
        Class::EditionFlagHidden => "EditionFlagHidden",
        Class::EditionFlagDefault => "EditionFlagDefault",
        Class::EditionFlagOrdered => "EditionFlagOrdered",
        Class::ChapterAtom => "ChapterAtom",
        Class::ChapterUID => "ChapterUID",
        Class::ChapterTimeStart => "ChapterTimeStart",
        Class::ChapterTimeEnd => "ChapterTimeEnd",
        Class::ChapterFlagHidden => "ChapterFlagHidden",
        Class::ChapterFlagEnabled => "ChapterFlagEnabled",
        Class::ChapterSegmentUID => "ChapterSegmentUID",
        Class::ChapterSegmentEditionUID => "ChapterSegmentEditionUID",
        Class::ChapterPhysicalEquiv => "ChapterPhysicalEquiv",
        Class::ChapterTrack => "ChapterTrack",
        Class::ChapterTrackNumber => "ChapterTrackNumber",
        Class::ChapterDisplay => "ChapterDisplay",
        Class::ChapString => "ChapString",
        Class::ChapLanguage => "ChapLanguage",
        Class::ChapCountry => "ChapCountry",
        Class::ChapProcess => "ChapProcess",
        Class::ChapProcessCodecID => "ChapProcessCodecID",
        Class::ChapProcessPrivate => "ChapProcessPrivate",
        Class::ChapProcessCommand => "ChapProcessCommand",
        Class::ChapProcessTime => "ChapProcessTime",
        Class::ChapProcessData => "ChapProcessData",
        Class::Tags => "Tags",
        Class::Tag => "Tag",
        Class::Targets => "Targets",
        Class::TargetTypeValue => "TargetTypeValue",
        Class::TargetType => "TargetType",
        Class::TagTrackUID => "TagTrackUID",
        Class::TagEditionUID => "TagEditionUID",
        Class::TagChapterUID => "TagChapterUID",
        Class::TagAttachmentUID => "TagAttachmentUID",
        Class::SimpleTag => "SimpleTag",
        Class::TagName => "TagName",
        Class::TagLanguage => "TagLanguage",
        Class::TagDefault => "TagDefault",
        Class::TagString => "TagString",
        Class::TagBinary => "TagBinary",
        Class::Unknown => "Unknown",
    }
}

} // verus!
