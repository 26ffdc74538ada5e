use vstd::prelude::*;

use crate::bridge::NativeEnum;

verus! {

pub const AV_PKT_DATA_PALETTE: i32 = 0;
pub const AV_PKT_DATA_NEW_EXTRADATA: i32 = 1;
pub const AV_PKT_DATA_PARAM_CHANGE: i32 = 2;
pub const AV_PKT_DATA_H263_MB_INFO: i32 = 3;
pub const AV_PKT_DATA_REPLAYGAIN: i32 = 4;
pub const AV_PKT_DATA_DISPLAYMATRIX: i32 = 5;
pub const AV_PKT_DATA_STEREO3D: i32 = 6;
pub const AV_PKT_DATA_AUDIO_SERVICE_TYPE: i32 = 7;
pub const AV_PKT_DATA_QUALITY_STATS: i32 = 8;
pub const AV_PKT_DATA_FALLBACK_TRACK: i32 = 9;
pub const AV_PKT_DATA_CPB_PROPERTIES: i32 = 10;
pub const AV_PKT_DATA_SKIP_SAMPLES: i32 = 11;
pub const AV_PKT_DATA_JP_DUALMONO: i32 = 12;
pub const AV_PKT_DATA_STRINGS_METADATA: i32 = 13;
pub const AV_PKT_DATA_SUBTITLE_POSITION: i32 = 14;
pub const AV_PKT_DATA_MATROSKA_BLOCKADDITIONAL: i32 = 15;
pub const AV_PKT_DATA_WEBVTT_IDENTIFIER: i32 = 16;
pub const AV_PKT_DATA_WEBVTT_SETTINGS: i32 = 17;
pub const AV_PKT_DATA_METADATA_UPDATE: i32 = 18;
pub const AV_PKT_DATA_MPEGTS_STREAM_ID: i32 = 19;
pub const AV_PKT_DATA_MASTERING_DISPLAY_METADATA: i32 = 20;
pub const AV_PKT_DATA_SPHERICAL: i32 = 21;
pub const AV_PKT_DATA_NB: i32 = 31;
pub const AV_PKT_DATA_CONTENT_LIGHT_LEVEL: i32 = 22;
pub const AV_PKT_DATA_A53_CC: i32 = 23;
pub const AV_PKT_DATA_ENCRYPTION_INIT_INFO: i32 = 24;
pub const AV_PKT_DATA_ENCRYPTION_INFO: i32 = 25;
pub const AV_PKT_DATA_AFD: i32 = 26;
pub const AV_PKT_DATA_PRFT: i32 = 27;
pub const AV_PKT_DATA_ICC_PROFILE: i32 = 28;
pub const AV_PKT_DATA_DOVI_CONF: i32 = 29;
pub const AV_PKT_DATA_S12M_TIMECODE: i32 = 30;

/// Kind of side data attached to a packet (native `AVPacketSideDataType`).
///
/// A native value without a variant reads as `Type::DataNb`, the native count sentinel.
#[derive(PartialEq, Eq, Structural, Clone, Copy, Debug)]
pub enum Type {
    /// A palette of `AVPALETTE_SIZE` bytes: a new palette is present.
    Palette,
    /// The extradata buffer was changed; the new extradata is embedded in the side data buffer.
    NewExtraData,
    /// Changed parameters: `u32le` flags followed by the sample rate and/or the dimensions.
    ParamChange,
    /// Macroblock information relevant to splitting the packet, 12 bytes per macroblock.
    H263MbInfo,
    /// ReplayGain information in the form of the `AVReplayGain` struct.
    ReplayGain,
    /// A 3x3 transformation matrix to apply to the decoded video frames.
    DisplayMatrix,
    /// Stereoscopic 3D information in the form of the `AVStereo3D` struct.
    Stereo3d,
    /// An `AVAudioServiceType` of an audio stream.
    AudioServiceType,
    /// Quality related information from the encoder.
    QualityStats,
    /// The stream index of a fallback track.
    FallbackTrack,
    /// The `AVCPBProperties` struct.
    CBPProperties,
    /// Recommends skipping the given number of samples at the start and the end.
    SkipSamples,
    /// The packet may contain Japanese DTV "dual mono" audio.
    JpDualMono,
    /// A list of zero terminated key/value strings, ended by the side data size.
    StringsMetadata,
    /// Subtitle event position: `u32le` x1, y1, x2, y2.
    SubtitlePosition,
    /// Data of a matroska BlockAdditional element: an 8 byte id followed by data.
    MatroskaBlockAdditional,
    /// The optional first identifier line of a WebVTT cue.
    WebVTTIdentifier,
    /// The optional settings that follow the timestamp specifier of a WebVTT cue.
    WebVTTSettings,
    /// Updated metadata as zero terminated key/value strings.
    MetadataUpdate,
    /// MPEGTS stream ID as `uint8_t`.
    MPEGTSStreamID,
    /// Mastering display metadata (SMPTE-2086:2014).
    MasteringDisplayMetadata,
    /// The `AVSphericalMapping` structure.
    DataSpherical,
    /// The native count of kinds; every native value without a variant reads as this one.
    DataNb,
    /// Content light level (CTA-861.3).
    ContentLightLevel,
    /// ATSC A53 Part 4 Closed Captions.
    A53CC,
    /// Encryption initialization data.
    EncryptionInitInfo,
    /// Encryption info for how to decrypt the packet.
    EncryptionInfo,
    /// Active Format Description data of a single byte.
    AFD,
    /// Producer Reference Time (`AVProducerReferenceTime`).
    PRFT,
    /// An ICC profile as an opaque octet buffer (ISO 15076-1).
    ICC_PROFILE,
    /// Dolby Vision configuration record.
    DOVI_CONF,
    /// Timecode conforming to SMPTE ST 12-1:2014.
    S12M_TIMECODE,
}

impl NativeEnum for Type {
    open spec fn fallback() -> Type {
        Type::DataNb
    }

    open spec fn spec_to_native(self) -> i32 {
        match self {
            Type::Palette => AV_PKT_DATA_PALETTE,
            Type::NewExtraData => AV_PKT_DATA_NEW_EXTRADATA,
            Type::ParamChange => AV_PKT_DATA_PARAM_CHANGE,
            Type::H263MbInfo => AV_PKT_DATA_H263_MB_INFO,
            Type::ReplayGain => AV_PKT_DATA_REPLAYGAIN,
            Type::DisplayMatrix => AV_PKT_DATA_DISPLAYMATRIX,
            Type::Stereo3d => AV_PKT_DATA_STEREO3D,
            Type::AudioServiceType => AV_PKT_DATA_AUDIO_SERVICE_TYPE,
            Type::QualityStats => AV_PKT_DATA_QUALITY_STATS,
            Type::FallbackTrack => AV_PKT_DATA_FALLBACK_TRACK,
            Type::CBPProperties => AV_PKT_DATA_CPB_PROPERTIES,
            Type::SkipSamples => AV_PKT_DATA_SKIP_SAMPLES,
            Type::JpDualMono => AV_PKT_DATA_JP_DUALMONO,
            Type::StringsMetadata => AV_PKT_DATA_STRINGS_METADATA,
            Type::SubtitlePosition => AV_PKT_DATA_SUBTITLE_POSITION,
            Type::MatroskaBlockAdditional => AV_PKT_DATA_MATROSKA_BLOCKADDITIONAL,
            Type::WebVTTIdentifier => AV_PKT_DATA_WEBVTT_IDENTIFIER,
            Type::WebVTTSettings => AV_PKT_DATA_WEBVTT_SETTINGS,
            Type::MetadataUpdate => AV_PKT_DATA_METADATA_UPDATE,
            Type::MPEGTSStreamID => AV_PKT_DATA_MPEGTS_STREAM_ID,
            Type::MasteringDisplayMetadata => AV_PKT_DATA_MASTERING_DISPLAY_METADATA,
            Type::DataSpherical => AV_PKT_DATA_SPHERICAL,
            Type::DataNb => AV_PKT_DATA_NB,
            Type::ContentLightLevel => AV_PKT_DATA_CONTENT_LIGHT_LEVEL,
            Type::A53CC => AV_PKT_DATA_A53_CC,
            Type::EncryptionInitInfo => AV_PKT_DATA_ENCRYPTION_INIT_INFO,
            Type::EncryptionInfo => AV_PKT_DATA_ENCRYPTION_INFO,
            Type::AFD => AV_PKT_DATA_AFD,
            Type::PRFT => AV_PKT_DATA_PRFT,
            Type::ICC_PROFILE => AV_PKT_DATA_ICC_PROFILE,
            Type::DOVI_CONF => AV_PKT_DATA_DOVI_CONF,
            Type::S12M_TIMECODE => AV_PKT_DATA_S12M_TIMECODE,
        }
    }

    open spec fn is_readable(self) -> bool {
        true
    }

    open spec fn spec_from_native(value: i32) -> Type {
        if exists|v: Type| v.is_readable() && v.spec_to_native() == value {
            choose|v: Type| v.is_readable() && v.spec_to_native() == value
        } else {
            Type::fallback()
        }
    }

    fn from_native(value: i32) -> (r: Type) {
        let r = match value {
            AV_PKT_DATA_PALETTE => Type::Palette,
            AV_PKT_DATA_NEW_EXTRADATA => Type::NewExtraData,
            AV_PKT_DATA_PARAM_CHANGE => Type::ParamChange,
            AV_PKT_DATA_H263_MB_INFO => Type::H263MbInfo,
            AV_PKT_DATA_REPLAYGAIN => Type::ReplayGain,
            AV_PKT_DATA_DISPLAYMATRIX => Type::DisplayMatrix,
            AV_PKT_DATA_STEREO3D => Type::Stereo3d,
            AV_PKT_DATA_AUDIO_SERVICE_TYPE => Type::AudioServiceType,
            AV_PKT_DATA_QUALITY_STATS => Type::QualityStats,
            AV_PKT_DATA_FALLBACK_TRACK => Type::FallbackTrack,
            AV_PKT_DATA_CPB_PROPERTIES => Type::CBPProperties,
            AV_PKT_DATA_SKIP_SAMPLES => Type::SkipSamples,
            AV_PKT_DATA_JP_DUALMONO => Type::JpDualMono,
            AV_PKT_DATA_STRINGS_METADATA => Type::StringsMetadata,
            AV_PKT_DATA_SUBTITLE_POSITION => Type::SubtitlePosition,
            AV_PKT_DATA_MATROSKA_BLOCKADDITIONAL => Type::MatroskaBlockAdditional,
            AV_PKT_DATA_WEBVTT_IDENTIFIER => Type::WebVTTIdentifier,
            AV_PKT_DATA_WEBVTT_SETTINGS => Type::WebVTTSettings,
            AV_PKT_DATA_METADATA_UPDATE => Type::MetadataUpdate,
            AV_PKT_DATA_MPEGTS_STREAM_ID => Type::MPEGTSStreamID,
            AV_PKT_DATA_MASTERING_DISPLAY_METADATA => Type::MasteringDisplayMetadata,
            AV_PKT_DATA_SPHERICAL => Type::DataSpherical,
            AV_PKT_DATA_CONTENT_LIGHT_LEVEL => Type::ContentLightLevel,
            AV_PKT_DATA_A53_CC => Type::A53CC,
            AV_PKT_DATA_ENCRYPTION_INIT_INFO => Type::EncryptionInitInfo,
            AV_PKT_DATA_ENCRYPTION_INFO => Type::EncryptionInfo,
            AV_PKT_DATA_AFD => Type::AFD,
            AV_PKT_DATA_PRFT => Type::PRFT,
            AV_PKT_DATA_ICC_PROFILE => Type::ICC_PROFILE,
            AV_PKT_DATA_DOVI_CONF => Type::DOVI_CONF,
            AV_PKT_DATA_S12M_TIMECODE => Type::S12M_TIMECODE,
            _ => Type::DataNb,
        };
        proof {
            Type::round_trip(r);
        }
        r
    }

    fn to_native(self) -> (r: i32) {
        proof {
            Type::round_trip(self);
        }
        match self {
            Type::Palette => AV_PKT_DATA_PALETTE,
            Type::NewExtraData => AV_PKT_DATA_NEW_EXTRADATA,
            Type::ParamChange => AV_PKT_DATA_PARAM_CHANGE,
            Type::H263MbInfo => AV_PKT_DATA_H263_MB_INFO,
            Type::ReplayGain => AV_PKT_DATA_REPLAYGAIN,
            Type::DisplayMatrix => AV_PKT_DATA_DISPLAYMATRIX,
            Type::Stereo3d => AV_PKT_DATA_STEREO3D,
            Type::AudioServiceType => AV_PKT_DATA_AUDIO_SERVICE_TYPE,
            Type::QualityStats => AV_PKT_DATA_QUALITY_STATS,
            Type::FallbackTrack => AV_PKT_DATA_FALLBACK_TRACK,
            Type::CBPProperties => AV_PKT_DATA_CPB_PROPERTIES,
            Type::SkipSamples => AV_PKT_DATA_SKIP_SAMPLES,
            Type::JpDualMono => AV_PKT_DATA_JP_DUALMONO,
            Type::StringsMetadata => AV_PKT_DATA_STRINGS_METADATA,
            Type::SubtitlePosition => AV_PKT_DATA_SUBTITLE_POSITION,
            Type::MatroskaBlockAdditional => AV_PKT_DATA_MATROSKA_BLOCKADDITIONAL,
            Type::WebVTTIdentifier => AV_PKT_DATA_WEBVTT_IDENTIFIER,
            Type::WebVTTSettings => AV_PKT_DATA_WEBVTT_SETTINGS,
            Type::MetadataUpdate => AV_PKT_DATA_METADATA_UPDATE,
            Type::MPEGTSStreamID => AV_PKT_DATA_MPEGTS_STREAM_ID,
            Type::MasteringDisplayMetadata => AV_PKT_DATA_MASTERING_DISPLAY_METADATA,
            Type::DataSpherical => AV_PKT_DATA_SPHERICAL,
            Type::DataNb => AV_PKT_DATA_NB,
            Type::ContentLightLevel => AV_PKT_DATA_CONTENT_LIGHT_LEVEL,
            Type::A53CC => AV_PKT_DATA_A53_CC,
            Type::EncryptionInitInfo => AV_PKT_DATA_ENCRYPTION_INIT_INFO,
            Type::EncryptionInfo => AV_PKT_DATA_ENCRYPTION_INFO,
            Type::AFD => AV_PKT_DATA_AFD,
            Type::PRFT => AV_PKT_DATA_PRFT,
            Type::ICC_PROFILE => AV_PKT_DATA_ICC_PROFILE,
            Type::DOVI_CONF => AV_PKT_DATA_DOVI_CONF,
            Type::S12M_TIMECODE => AV_PKT_DATA_S12M_TIMECODE,
        }
    }

    proof fn to_native_injective(a: Type, b: Type) {
    }

    proof fn reads_are_readable(value: i32) {
    }

    proof fn round_trip(v: Type) {
        let w = choose|w: Type| w.is_readable() && w.spec_to_native() == v.spec_to_native();
        Type::to_native_injective(w, v);
    }

    proof fn unknown_values_fall_back(value: i32) {
    }
}

impl Type {
    /// The native count sentinel reads as the fallback variant.
    pub proof fn sentinel_falls_back()
        ensures
            Type::spec_from_native(AV_PKT_DATA_NB) == Type::DataNb,
    {
    }
}

/// The fields of a native `AVPacketSideData` as plain values: the kind, the bytes
/// that the data pointer reaches, and the native size field.
pub struct NativeSideData {
    pub kind: i32,
    pub buffer: Vec<u8>,
    pub size: i32,
}

impl NativeSideData {
    /// The size field stays within the bytes that the data pointer reaches.
    pub open spec fn wf(&self) -> bool {
        0 <= self.size <= self.buffer@.len()
    }
}

/// A read-only view of side data owned by a packet.
pub struct SideData<'a> {
    ptr: &'a NativeSideData,
}

impl<'a> SideData<'a> {
    pub closed spec fn native(&self) -> &'a NativeSideData {
        self.ptr
    }

    /// Wraps side data whose size field stays within its buffer.
    pub fn wrap(ptr: &'a NativeSideData) -> (r: SideData<'a>)
        requires
            ptr.wf(),
        ensures
            r.native() == ptr,
    {
        SideData { ptr }
    }

    pub fn as_ptr(&self) -> (r: &'a NativeSideData)
        ensures
            r == self.native(),
    {
        self.ptr
    }

    /// The kind read from the native kind field.
    pub fn kind(&self) -> (r: Type)
        ensures
            r == Type::spec_from_native(self.native().kind),
    {
        Type::from_native(self.ptr.kind)
    }

    /// Exactly the first `size` bytes of the buffer, however long the buffer is.
    pub fn data(&self) -> (r: &'a [u8])
        requires
            self.native().wf(),
        ensures
            r@ == self.native().buffer@.subrange(0, self.native().size as int),
    {
        vstd::slice::slice_subrange(self.ptr.buffer.as_slice(), 0, self.ptr.size as usize)
    }
}

} // verus!
