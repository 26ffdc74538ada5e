use vstd::prelude::*;

use crate::bridge::NativeEnum;

verus! {

pub const AVMEDIA_TYPE_UNKNOWN: i32 = -1;
pub const AVMEDIA_TYPE_VIDEO: i32 = 0;
pub const AVMEDIA_TYPE_AUDIO: i32 = 1;
pub const AVMEDIA_TYPE_DATA: i32 = 2;
pub const AVMEDIA_TYPE_SUBTITLE: i32 = 3;
pub const AVMEDIA_TYPE_ATTACHMENT: i32 = 4;
pub const AVMEDIA_TYPE_NB: i32 = 5;

/// Kind of media a codec or a stream carries (native `AVMediaType`).
///
/// Every native value without a variant, the count sentinel among them, reads as
/// `Type::Unknown`, as the native unknown value does.
#[derive(PartialEq, Eq, Structural, Clone, Copy, Debug)]
pub enum Type {
    Unknown,
    Video,
    Audio,
    /// Opaque data, usually continuous.
    Data,
    Subtitle,
    /// Opaque data, usually sparse.
    Attachment,
}

impl NativeEnum for Type {
    open spec fn fallback() -> Type {
        Type::Unknown
    }

    open spec fn spec_to_native(self) -> i32 {
        match self {
            Type::Unknown => AVMEDIA_TYPE_UNKNOWN,
            Type::Video => AVMEDIA_TYPE_VIDEO,
            Type::Audio => AVMEDIA_TYPE_AUDIO,
            Type::Data => AVMEDIA_TYPE_DATA,
            Type::Subtitle => AVMEDIA_TYPE_SUBTITLE,
            Type::Attachment => AVMEDIA_TYPE_ATTACHMENT,
        }
    }

    open spec fn is_readable(self) -> bool {
        true
    }

    open spec fn spec_from_native(value: i32) -> Type {
        if exists|v: Type| v.is_readable() && v.spec_to_native() == value {
            choose|v: Type| v.is_readable() && v.spec_to_native() == value
        } else {
            Type::fallback()
        }
    }

    fn from_native(value: i32) -> (r: Type) {
        let r = match value {
            AVMEDIA_TYPE_VIDEO => Type::Video,
            AVMEDIA_TYPE_AUDIO => Type::Audio,
            AVMEDIA_TYPE_DATA => Type::Data,
            AVMEDIA_TYPE_SUBTITLE => Type::Subtitle,
            AVMEDIA_TYPE_ATTACHMENT => Type::Attachment,
            _ => Type::Unknown,
        };
        proof {
            Type::round_trip(r);
        }
        r
    }

    fn to_native(self) -> (r: i32) {
        proof {
            Type::round_trip(self);
        }
        match self {
            Type::Unknown => AVMEDIA_TYPE_UNKNOWN,
            Type::Video => AVMEDIA_TYPE_VIDEO,
            Type::Audio => AVMEDIA_TYPE_AUDIO,
            Type::Data => AVMEDIA_TYPE_DATA,
            Type::Subtitle => AVMEDIA_TYPE_SUBTITLE,
            Type::Attachment => AVMEDIA_TYPE_ATTACHMENT,
        }
    }

    proof fn to_native_injective(a: Type, b: Type) {
    }

    proof fn reads_are_readable(value: i32) {
    }

    proof fn round_trip(v: Type) {
        let w = choose|w: Type| w.is_readable() && w.spec_to_native() == v.spec_to_native();
        Type::to_native_injective(w, v);
    }

    proof fn unknown_values_fall_back(value: i32) {
    }
}

impl Type {
    /// The native count sentinel reads as the same fallback variant as
    /// the native value for an unspecified media type.
    pub proof fn sentinel_falls_back()
        ensures
            Type::spec_from_native(AVMEDIA_TYPE_NB) == Type::Unknown,
            Type::spec_from_native(AVMEDIA_TYPE_UNKNOWN) == Type::Unknown,
    {
    }
}

} // verus!
