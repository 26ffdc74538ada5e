use vstd::prelude::*;

use crate::bridge::NativeEnum;

verus! {

pub const AV_FRAME_DATA_PANSCAN: i32 = 0;
pub const AV_FRAME_DATA_A53_CC: i32 = 1;
pub const AV_FRAME_DATA_STEREO3D: i32 = 2;
pub const AV_FRAME_DATA_MATRIXENCODING: i32 = 3;
pub const AV_FRAME_DATA_DOWNMIX_INFO: i32 = 4;
pub const AV_FRAME_DATA_REPLAYGAIN: i32 = 5;
pub const AV_FRAME_DATA_DISPLAYMATRIX: i32 = 6;
pub const AV_FRAME_DATA_AFD: i32 = 7;
pub const AV_FRAME_DATA_MOTION_VECTORS: i32 = 8;
pub const AV_FRAME_DATA_SKIP_SAMPLES: i32 = 9;
pub const AV_FRAME_DATA_AUDIO_SERVICE_TYPE: i32 = 10;
pub const AV_FRAME_DATA_MASTERING_DISPLAY_METADATA: i32 = 11;
pub const AV_FRAME_DATA_GOP_TIMECODE: i32 = 12;
pub const AV_FRAME_DATA_SPHERICAL: i32 = 13;
pub const AV_FRAME_DATA_CONTENT_LIGHT_LEVEL: i32 = 14;
pub const AV_FRAME_DATA_ICC_PROFILE: i32 = 15;
pub const AV_FRAME_DATA_QP_TABLE_PROPERTIES: i32 = 16;
pub const AV_FRAME_DATA_QP_TABLE_DATA: i32 = 17;
pub const AV_FRAME_DATA_S12M_TIMECODE: i32 = 18;
pub const AV_FRAME_DATA_DYNAMIC_HDR_PLUS: i32 = 19;
pub const AV_FRAME_DATA_REGIONS_OF_INTEREST: i32 = 20;
pub const AV_FRAME_DATA_VIDEO_ENC_PARAMS: i32 = 21;
pub const AV_FRAME_DATA_SEI_UNREGISTERED: i32 = 22;
pub const AV_FRAME_DATA_FILM_GRAIN_PARAMS: i32 = 23;

/// Kind of side data attached to a frame (native `AVFrameSideDataType`).
///
/// A native value without a variant reads as `Type::PanScan`, the native value 0.
#[derive(PartialEq, Eq, Structural, Clone, Copy, Debug)]
pub enum Type {
    /// The `AVPanScan` struct.
    PanScan,
    /// ATSC A53 Part 4 Closed Captions.
    A53CC,
    /// Stereoscopic 3d metadata.
    Stereo3D,
    /// An `AVMatrixEncoding`.
    MatrixEncoding,
    /// Metadata relevant to a downmix procedure.
    DownMixInfo,
    /// ReplayGain information in the form of the `AVReplayGain` struct.
    ReplayGain,
    /// A 3x3 transformation matrix to apply to the frame for correct presentation.
    DisplayMatrix,
    /// Active Format Description data of a single byte.
    AFD,
    /// Motion vectors exported by some codecs.
    MotionVectors,
    /// Recommends skipping the given number of samples.
    SkipSamples,
    /// The audio service type of an audio frame.
    AudioServiceType,
    /// Mastering display metadata of a video frame.
    MasteringDisplayMetadata,
    /// The GOP timecode in 25-bit timecode format, as a 64-bit integer.
    GOPTimecode,
    /// An `AVSphericalMapping`.
    Spherical,
    /// Content light level (CTA-861.3).
    ContentLightLevel,
    /// An ICC profile as an opaque octet buffer (ISO 15076-1).
    IccProfile,
    /// Properties of the quantization parameter table.
    QPTableProperties,
    /// The quantization parameter table.
    QPTableData,
    /// Timecode conforming to SMPTE ST 12-1.
    S12M_TIMECODE,
    /// HDR dynamic metadata (SMPTE 2094-40).
    DYNAMIC_HDR_PLUS,
    /// Regions of interest (`AVRegionOfInterest` array).
    REGIONS_OF_INTEREST,
    /// Encoding parameters of a video frame.
    VIDEO_ENC_PARAMS,
    /// User data unregistered metadata of a video frame.
    SEI_UNREGISTERED,
    /// Film grain parameters of a frame.
    FILM_GRAIN_PARAMS,
}

impl NativeEnum for Type {
    open spec fn fallback() -> Type {
        Type::PanScan
    }

    open spec fn spec_to_native(self) -> i32 {
        match self {
            Type::PanScan => AV_FRAME_DATA_PANSCAN,
            Type::A53CC => AV_FRAME_DATA_A53_CC,
            Type::Stereo3D => AV_FRAME_DATA_STEREO3D,
            Type::MatrixEncoding => AV_FRAME_DATA_MATRIXENCODING,
            Type::DownMixInfo => AV_FRAME_DATA_DOWNMIX_INFO,
            Type::ReplayGain => AV_FRAME_DATA_REPLAYGAIN,
            Type::DisplayMatrix => AV_FRAME_DATA_DISPLAYMATRIX,
            Type::AFD => AV_FRAME_DATA_AFD,
            Type::MotionVectors => AV_FRAME_DATA_MOTION_VECTORS,
            Type::SkipSamples => AV_FRAME_DATA_SKIP_SAMPLES,
            Type::AudioServiceType => AV_FRAME_DATA_AUDIO_SERVICE_TYPE,
            Type::MasteringDisplayMetadata => AV_FRAME_DATA_MASTERING_DISPLAY_METADATA,
            Type::GOPTimecode => AV_FRAME_DATA_GOP_TIMECODE,
            Type::Spherical => AV_FRAME_DATA_SPHERICAL,
            Type::ContentLightLevel => AV_FRAME_DATA_CONTENT_LIGHT_LEVEL,
            Type::IccProfile => AV_FRAME_DATA_ICC_PROFILE,
            Type::QPTableProperties => AV_FRAME_DATA_QP_TABLE_PROPERTIES,
            Type::QPTableData => AV_FRAME_DATA_QP_TABLE_DATA,
            Type::S12M_TIMECODE => AV_FRAME_DATA_S12M_TIMECODE,
            Type::DYNAMIC_HDR_PLUS => AV_FRAME_DATA_DYNAMIC_HDR_PLUS,
            Type::REGIONS_OF_INTEREST => AV_FRAME_DATA_REGIONS_OF_INTEREST,
            Type::VIDEO_ENC_PARAMS => AV_FRAME_DATA_VIDEO_ENC_PARAMS,
            Type::SEI_UNREGISTERED => AV_FRAME_DATA_SEI_UNREGISTERED,
            Type::FILM_GRAIN_PARAMS => AV_FRAME_DATA_FILM_GRAIN_PARAMS,
        }
    }

    open spec fn is_readable(self) -> bool {
        true
    }

    open spec fn spec_from_native(value: i32) -> Type {
        if exists|v: Type| v.is_readable() && v.spec_to_native() == value {
            choose|v: Type| v.is_readable() && v.spec_to_native() == value
        } else {
            Type::fallback()
        }
    }

    fn from_native(value: i32) -> (r: Type) {
        let r = match value {
            AV_FRAME_DATA_A53_CC => Type::A53CC,
            AV_FRAME_DATA_STEREO3D => Type::Stereo3D,
            AV_FRAME_DATA_MATRIXENCODING => Type::MatrixEncoding,
            AV_FRAME_DATA_DOWNMIX_INFO => Type::DownMixInfo,
            AV_FRAME_DATA_REPLAYGAIN => Type::ReplayGain,
            AV_FRAME_DATA_DISPLAYMATRIX => Type::DisplayMatrix,
            AV_FRAME_DATA_AFD => Type::AFD,
            AV_FRAME_DATA_MOTION_VECTORS => Type::MotionVectors,
            AV_FRAME_DATA_SKIP_SAMPLES => Type::SkipSamples,
            AV_FRAME_DATA_AUDIO_SERVICE_TYPE => Type::AudioServiceType,
            AV_FRAME_DATA_MASTERING_DISPLAY_METADATA => Type::MasteringDisplayMetadata,
            AV_FRAME_DATA_GOP_TIMECODE => Type::GOPTimecode,
            AV_FRAME_DATA_SPHERICAL => Type::Spherical,
            AV_FRAME_DATA_CONTENT_LIGHT_LEVEL => Type::ContentLightLevel,
            AV_FRAME_DATA_ICC_PROFILE => Type::IccProfile,
            AV_FRAME_DATA_QP_TABLE_PROPERTIES => Type::QPTableProperties,
            AV_FRAME_DATA_QP_TABLE_DATA => Type::QPTableData,
            AV_FRAME_DATA_S12M_TIMECODE => Type::S12M_TIMECODE,
            AV_FRAME_DATA_DYNAMIC_HDR_PLUS => Type::DYNAMIC_HDR_PLUS,
            AV_FRAME_DATA_REGIONS_OF_INTEREST => Type::REGIONS_OF_INTEREST,
            AV_FRAME_DATA_VIDEO_ENC_PARAMS => Type::VIDEO_ENC_PARAMS,
            AV_FRAME_DATA_SEI_UNREGISTERED => Type::SEI_UNREGISTERED,
            AV_FRAME_DATA_FILM_GRAIN_PARAMS => Type::FILM_GRAIN_PARAMS,
            _ => Type::PanScan,
        };
        proof {
            Type::round_trip(r);
        }
        r
    }

    fn to_native(self) -> (r: i32) {
        proof {
            Type::round_trip(self);
        }
        match self {
            Type::PanScan => AV_FRAME_DATA_PANSCAN,
            Type::A53CC => AV_FRAME_DATA_A53_CC,
            Type::Stereo3D => AV_FRAME_DATA_STEREO3D,
            Type::MatrixEncoding => AV_FRAME_DATA_MATRIXENCODING,
            Type::DownMixInfo => AV_FRAME_DATA_DOWNMIX_INFO,
            Type::ReplayGain => AV_FRAME_DATA_REPLAYGAIN,
            Type::DisplayMatrix => AV_FRAME_DATA_DISPLAYMATRIX,
            Type::AFD => AV_FRAME_DATA_AFD,
            Type::MotionVectors => AV_FRAME_DATA_MOTION_VECTORS,
            Type::SkipSamples => AV_FRAME_DATA_SKIP_SAMPLES,
            Type::AudioServiceType => AV_FRAME_DATA_AUDIO_SERVICE_TYPE,
            Type::MasteringDisplayMetadata => AV_FRAME_DATA_MASTERING_DISPLAY_METADATA,
            Type::GOPTimecode => AV_FRAME_DATA_GOP_TIMECODE,
            Type::Spherical => AV_FRAME_DATA_SPHERICAL,
            Type::ContentLightLevel => AV_FRAME_DATA_CONTENT_LIGHT_LEVEL,
            Type::IccProfile => AV_FRAME_DATA_ICC_PROFILE,
            Type::QPTableProperties => AV_FRAME_DATA_QP_TABLE_PROPERTIES,
            Type::QPTableData => AV_FRAME_DATA_QP_TABLE_DATA,
            Type::S12M_TIMECODE => AV_FRAME_DATA_S12M_TIMECODE,
            Type::DYNAMIC_HDR_PLUS => AV_FRAME_DATA_DYNAMIC_HDR_PLUS,
            Type::REGIONS_OF_INTEREST => AV_FRAME_DATA_REGIONS_OF_INTEREST,
            Type::VIDEO_ENC_PARAMS => AV_FRAME_DATA_VIDEO_ENC_PARAMS,
            Type::SEI_UNREGISTERED => AV_FRAME_DATA_SEI_UNREGISTERED,
            Type::FILM_GRAIN_PARAMS => AV_FRAME_DATA_FILM_GRAIN_PARAMS,
        }
    }

    proof fn to_native_injective(a: Type, b: Type) {
    }

    proof fn reads_are_readable(value: i32) {
    }

    proof fn round_trip(v: Type) {
        let w = choose|w: Type| w.is_readable() && w.spec_to_native() == v.spec_to_native();
        Type::to_native_injective(w, v);
    }

    proof fn unknown_values_fall_back(value: i32) {
    }
}

/// The fields of a native `AVFrameSideData` as plain values: the kind, the bytes
/// that the data pointer reaches, and the native size field.
pub struct NativeSideData {
    pub kind: i32,
    pub buffer: Vec<u8>,
    pub size: i32,
}

impl NativeSideData {
    /// The size field stays within the bytes that the data pointer reaches.
    pub open spec fn wf(&self) -> bool {
        0 <= self.size <= self.buffer@.len()
    }
}

/// A read-only view of side data owned by a frame.
pub struct SideData<'a> {
    ptr: &'a NativeSideData,
}

impl<'a> SideData<'a> {
    pub closed spec fn native(&self) -> &'a NativeSideData {
        self.ptr
    }

    /// Wraps side data whose size field stays within its buffer.
    pub fn wrap(ptr: &'a NativeSideData) -> (r: SideData<'a>)
        requires
            ptr.wf(),
        ensures
            r.native() == ptr,
    {
        SideData { ptr }
    }

    pub fn as_ptr(&self) -> (r: &'a NativeSideData)
        ensures
            r == self.native(),
    {
        self.ptr
    }

    /// The kind read from the native kind field.
    pub fn kind(&self) -> (r: Type)
        ensures
            r == Type::spec_from_native(self.native().kind),
    {
        Type::from_native(self.ptr.kind)
    }

    /// Exactly the first `size` bytes of the buffer, however long the buffer is.
    pub fn data(&self) -> (r: &'a [u8])
        requires
            self.native().wf(),
        ensures
            r@ == self.native().buffer@.subrange(0, self.native().size as int),
    {
        vstd::slice::slice_subrange(self.ptr.buffer.as_slice(), 0, self.ptr.size as usize)
    }
}

} // verus!
