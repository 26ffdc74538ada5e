use vstd::prelude::*;

use crate::bridge::NativeEnum;

verus! {

pub const AV_OPT_TYPE_FLAGS: i32 = 0;
pub const AV_OPT_TYPE_INT: i32 = 1;
pub const AV_OPT_TYPE_INT64: i32 = 2;
pub const AV_OPT_TYPE_DOUBLE: i32 = 3;
pub const AV_OPT_TYPE_FLOAT: i32 = 4;
pub const AV_OPT_TYPE_STRING: i32 = 5;
pub const AV_OPT_TYPE_RATIONAL: i32 = 6;
pub const AV_OPT_TYPE_BINARY: i32 = 7;
pub const AV_OPT_TYPE_DICT: i32 = 8;
pub const AV_OPT_TYPE_UINT64: i32 = 9;
pub const AV_OPT_TYPE_CONST: i32 = 10;
pub const AV_OPT_TYPE_IMAGE_SIZE: i32 = 11;
pub const AV_OPT_TYPE_PIXEL_FMT: i32 = 12;
pub const AV_OPT_TYPE_SAMPLE_FMT: i32 = 13;
pub const AV_OPT_TYPE_VIDEO_RATE: i32 = 14;
pub const AV_OPT_TYPE_DURATION: i32 = 15;
pub const AV_OPT_TYPE_COLOR: i32 = 16;
pub const AV_OPT_TYPE_CHANNEL_LAYOUT: i32 = 17;
pub const AV_OPT_TYPE_BOOL: i32 = 18;

/// Type of an option (native `AVOptionType`).
///
/// A native value without a variant reads as `Type::Flags`, the native value 0.
#[derive(PartialEq, Eq, Structural, Clone, Copy, Debug)]
pub enum Type {
    /// Underlying C type is `unsigned int`.
    Flags,
    /// Underlying C type is `int`.
    Int,
    /// Underlying C type is `int64_t`.
    Int64,
    /// Underlying C type is `double`.
    Double,
    /// Underlying C type is `float`.
    Float,
    /// Underlying C type is a `uint8_t*` that is either `NULL` or points to a C string.
    String,
    /// Underlying C type is `AVRational`.
    Rational,
    /// Underlying C type is a `uint8_t*` immediately followed by an int holding the array length in bytes.
    Binary,
    /// Underlying C type is `AVDictionary`.
    Dictionary,
    /// Underlying C type is `uint64_t`.
    c_ulong,
    /// A named constant of another option.
    Constant,
    /// Underlying C type is two consecutive integers.
    ImageSize,
    /// Underlying C type is `AVPixelFormat`.
    PixelFormat,
    /// Underlying C type is `AVSampleFormat`.
    SampleFormat,
    /// Underlying C type is `AVRational`.
    VideoRate,
    /// Underlying C type is `int64_t`.
    Duration,
    /// Underlying C type is `uint8_t[4]`.
    Color,
    /// Underlying C type is a channel layout.
    ChannelLayout,
    /// Underlying C type is `int`.
    bool,
}

impl NativeEnum for Type {
    open spec fn fallback() -> Type {
        Type::Flags
    }

    open spec fn spec_to_native(self) -> i32 {
        match self {
            Type::Flags => AV_OPT_TYPE_FLAGS,
            Type::Int => AV_OPT_TYPE_INT,
            Type::Int64 => AV_OPT_TYPE_INT64,
            Type::Double => AV_OPT_TYPE_DOUBLE,
            Type::Float => AV_OPT_TYPE_FLOAT,
            Type::String => AV_OPT_TYPE_STRING,
            Type::Rational => AV_OPT_TYPE_RATIONAL,
            Type::Binary => AV_OPT_TYPE_BINARY,
            Type::Dictionary => AV_OPT_TYPE_DICT,
            Type::c_ulong => AV_OPT_TYPE_UINT64,
            Type::Constant => AV_OPT_TYPE_CONST,
            Type::ImageSize => AV_OPT_TYPE_IMAGE_SIZE,
            Type::PixelFormat => AV_OPT_TYPE_PIXEL_FMT,
            Type::SampleFormat => AV_OPT_TYPE_SAMPLE_FMT,
            Type::VideoRate => AV_OPT_TYPE_VIDEO_RATE,
            Type::Duration => AV_OPT_TYPE_DURATION,
            Type::Color => AV_OPT_TYPE_COLOR,
            Type::ChannelLayout => AV_OPT_TYPE_CHANNEL_LAYOUT,
            Type::bool => AV_OPT_TYPE_BOOL,
        }
    }

    open spec fn is_readable(self) -> bool {
        true
    }

    open spec fn spec_from_native(value: i32) -> Type {
        if exists|v: Type| v.is_readable() && v.spec_to_native() == value {
            choose|v: Type| v.is_readable() && v.spec_to_native() == value
        } else {
            Type::fallback()
        }
    }

    fn from_native(value: i32) -> (r: Type) {
        let r = match value {
            AV_OPT_TYPE_INT => Type::Int,
            AV_OPT_TYPE_INT64 => Type::Int64,
            AV_OPT_TYPE_DOUBLE => Type::Double,
            AV_OPT_TYPE_FLOAT => Type::Float,
            AV_OPT_TYPE_STRING => Type::String,
            AV_OPT_TYPE_RATIONAL => Type::Rational,
            AV_OPT_TYPE_BINARY => Type::Binary,
            AV_OPT_TYPE_DICT => Type::Dictionary,
            AV_OPT_TYPE_UINT64 => Type::c_ulong,
            AV_OPT_TYPE_CONST => Type::Constant,
            AV_OPT_TYPE_IMAGE_SIZE => Type::ImageSize,
            AV_OPT_TYPE_PIXEL_FMT => Type::PixelFormat,
            AV_OPT_TYPE_SAMPLE_FMT => Type::SampleFormat,
            AV_OPT_TYPE_VIDEO_RATE => Type::VideoRate,
            AV_OPT_TYPE_DURATION => Type::Duration,
            AV_OPT_TYPE_COLOR => Type::Color,
            AV_OPT_TYPE_CHANNEL_LAYOUT => Type::ChannelLayout,
            AV_OPT_TYPE_BOOL => Type::bool,
            _ => Type::Flags,
        };
        proof {
            Type::round_trip(r);
        }
        r
    }

    fn to_native(self) -> (r: i32) {
        proof {
            Type::round_trip(self);
        }
        match self {
            Type::Flags => AV_OPT_TYPE_FLAGS,
            Type::Int => AV_OPT_TYPE_INT,
            Type::Int64 => AV_OPT_TYPE_INT64,
            Type::Double => AV_OPT_TYPE_DOUBLE,
            Type::Float => AV_OPT_TYPE_FLOAT,
            Type::String => AV_OPT_TYPE_STRING,
            Type::Rational => AV_OPT_TYPE_RATIONAL,
            Type::Binary => AV_OPT_TYPE_BINARY,
            Type::Dictionary => AV_OPT_TYPE_DICT,
            Type::c_ulong => AV_OPT_TYPE_UINT64,
            Type::Constant => AV_OPT_TYPE_CONST,
            Type::ImageSize => AV_OPT_TYPE_IMAGE_SIZE,
            Type::PixelFormat => AV_OPT_TYPE_PIXEL_FMT,
            Type::SampleFormat => AV_OPT_TYPE_SAMPLE_FMT,
            Type::VideoRate => AV_OPT_TYPE_VIDEO_RATE,
            Type::Duration => AV_OPT_TYPE_DURATION,
            Type::Color => AV_OPT_TYPE_COLOR,
            Type::ChannelLayout => AV_OPT_TYPE_CHANNEL_LAYOUT,
            Type::bool => AV_OPT_TYPE_BOOL,
        }
    }

    proof fn to_native_injective(a: Type, b: Type) {
    }

    proof fn reads_are_readable(value: i32) {
    }

    proof fn round_trip(v: Type) {
        let w = choose|w: Type| w.is_readable() && w.spec_to_native() == v.spec_to_native();
        Type::to_native_injective(w, v);
    }

    proof fn unknown_values_fall_back(value: i32) {
    }
}

} // verus!
