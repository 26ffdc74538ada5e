use vstd::prelude::*;

use crate::bridge::NativeEnum;

verus! {

pub const AVCOL_SPC_RGB: i32 = 0;
pub const AVCOL_SPC_BT709: i32 = 1;
pub const AVCOL_SPC_UNSPECIFIED: i32 = 2;
pub const AVCOL_SPC_RESERVED: i32 = 3;
pub const AVCOL_SPC_FCC: i32 = 4;
pub const AVCOL_SPC_BT470BG: i32 = 5;
pub const AVCOL_SPC_SMPTE170M: i32 = 6;
pub const AVCOL_SPC_SMPTE240M: i32 = 7;
pub const AVCOL_SPC_YCGCO: i32 = 8;
pub const AVCOL_SPC_BT2020_NCL: i32 = 9;
pub const AVCOL_SPC_BT2020_CL: i32 = 10;
pub const AVCOL_SPC_SMPTE2085: i32 = 11;
pub const AVCOL_SPC_CHROMA_DERIVED_NCL: i32 = 12;
pub const AVCOL_SPC_CHROMA_DERIVED_CL: i32 = 13;
pub const AVCOL_SPC_ICTCP: i32 = 14;
pub const AVCOL_SPC_NB: i32 = 15;

/// YUV color space type (native `AVColorSpace`).
///
/// Every native value without a readable variant, the reserved codes and the count
/// sentinel among them, reads as `Space::Unspecified`, as the native unspecified value does.
#[derive(PartialEq, Eq, Structural, Clone, Copy, Debug)]
pub enum Space {
    /// Coefficients are actually ordered as GBR.
    RGB,
    BT709,
    Unspecified,
    /// A reserved code: written as its native value, which reads as `Space::Unspecified`.
    Reserved,
    /// FCC Title 47 Code of federal regulations.
    FCC,
    BT470BG,
    SMPTE170M,
    SMPTE240M,
    YCGCO,
    BT2020NCL,
    BT2020CL,
    SMPTE2085,
    /// Chromaticity-derived non-constant luminance system.
    ChromaDerivedNCL,
    /// Chromaticity-derived constant luminance system.
    ChromaDerivedCL,
    ICTCP,
}

impl NativeEnum for Space {
    open spec fn fallback() -> Space {
        Space::Unspecified
    }

    open spec fn spec_to_native(self) -> i32 {
        match self {
            Space::RGB => AVCOL_SPC_RGB,
            Space::BT709 => AVCOL_SPC_BT709,
            Space::Unspecified => AVCOL_SPC_UNSPECIFIED,
            Space::Reserved => AVCOL_SPC_RESERVED,
            Space::FCC => AVCOL_SPC_FCC,
            Space::BT470BG => AVCOL_SPC_BT470BG,
            Space::SMPTE170M => AVCOL_SPC_SMPTE170M,
            Space::SMPTE240M => AVCOL_SPC_SMPTE240M,
            Space::YCGCO => AVCOL_SPC_YCGCO,
            Space::BT2020NCL => AVCOL_SPC_BT2020_NCL,
            Space::BT2020CL => AVCOL_SPC_BT2020_CL,
            Space::SMPTE2085 => AVCOL_SPC_SMPTE2085,
            Space::ChromaDerivedNCL => AVCOL_SPC_CHROMA_DERIVED_NCL,
            Space::ChromaDerivedCL => AVCOL_SPC_CHROMA_DERIVED_CL,
            Space::ICTCP => AVCOL_SPC_ICTCP,
        }
    }

    open spec fn is_readable(self) -> bool {
        !(self is Reserved)
    }

    open spec fn spec_from_native(value: i32) -> Space {
        if exists|v: Space| v.is_readable() && v.spec_to_native() == value {
            choose|v: Space| v.is_readable() && v.spec_to_native() == value
        } else {
            Space::fallback()
        }
    }

    fn from_native(value: i32) -> (r: Space) {
        let r = match value {
            AVCOL_SPC_RGB => Space::RGB,
            AVCOL_SPC_BT709 => Space::BT709,
            AVCOL_SPC_FCC => Space::FCC,
            AVCOL_SPC_BT470BG => Space::BT470BG,
            AVCOL_SPC_SMPTE170M => Space::SMPTE170M,
            AVCOL_SPC_SMPTE240M => Space::SMPTE240M,
            AVCOL_SPC_YCGCO => Space::YCGCO,
            AVCOL_SPC_BT2020_NCL => Space::BT2020NCL,
            AVCOL_SPC_BT2020_CL => Space::BT2020CL,
            AVCOL_SPC_SMPTE2085 => Space::SMPTE2085,
            AVCOL_SPC_CHROMA_DERIVED_NCL => Space::ChromaDerivedNCL,
            AVCOL_SPC_CHROMA_DERIVED_CL => Space::ChromaDerivedCL,
            AVCOL_SPC_ICTCP => Space::ICTCP,
            _ => Space::Unspecified,
        };
        proof {
            Space::round_trip(r);
        }
        r
    }

    fn to_native(self) -> (r: i32) {
        proof {
            if self.is_readable() {
                Space::round_trip(self);
            }
        }
        match self {
            Space::RGB => AVCOL_SPC_RGB,
            Space::BT709 => AVCOL_SPC_BT709,
            Space::Unspecified => AVCOL_SPC_UNSPECIFIED,
            Space::Reserved => AVCOL_SPC_RESERVED,
            Space::FCC => AVCOL_SPC_FCC,
            Space::BT470BG => AVCOL_SPC_BT470BG,
            Space::SMPTE170M => AVCOL_SPC_SMPTE170M,
            Space::SMPTE240M => AVCOL_SPC_SMPTE240M,
            Space::YCGCO => AVCOL_SPC_YCGCO,
            Space::BT2020NCL => AVCOL_SPC_BT2020_NCL,
            Space::BT2020CL => AVCOL_SPC_BT2020_CL,
            Space::SMPTE2085 => AVCOL_SPC_SMPTE2085,
            Space::ChromaDerivedNCL => AVCOL_SPC_CHROMA_DERIVED_NCL,
            Space::ChromaDerivedCL => AVCOL_SPC_CHROMA_DERIVED_CL,
            Space::ICTCP => AVCOL_SPC_ICTCP,
        }
    }

    proof fn to_native_injective(a: Space, b: Space) {
    }

    proof fn reads_are_readable(value: i32) {
    }

    proof fn round_trip(v: Space) {
        let w = choose|w: Space| w.is_readable() && w.spec_to_native() == v.spec_to_native();
        Space::to_native_injective(w, v);
    }

    proof fn unknown_values_fall_back(value: i32) {
    }
}

impl Space {
    /// Other name of `Space::YCGCO`: the same native value.
    pub const YCOCG: Space = Space::YCGCO;

    /// The native name of this variant, given what the native name lookup
    /// returned for `to_native()`; `Space::Unspecified` has no name whatever the lookup said.
    pub fn name(&self, native_name: Option<String>) -> (r: Option<String>)
        ensures
            *self == Space::Unspecified ==> r is None,
            *self != Space::Unspecified ==> r == native_name,
    {
        if *self == Space::Unspecified {
            None
        } else {
            native_name
        }
    }

    /// The reserved codes and the native count sentinel read as the same
    /// fallback variant as the native value for an unspecified color space.
    pub proof fn sentinel_falls_back()
        ensures
            Space::spec_from_native(AVCOL_SPC_RESERVED) == Space::Unspecified,
            Space::spec_from_native(AVCOL_SPC_NB) == Space::Unspecified,
            Space::spec_from_native(AVCOL_SPC_UNSPECIFIED) == Space::Unspecified,
    {
    }
}

} // verus!
