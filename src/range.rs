use vstd::prelude::*;

use crate::bridge::NativeEnum;

verus! {

pub const AVCOL_RANGE_UNSPECIFIED: i32 = 0;
pub const AVCOL_RANGE_MPEG: i32 = 1;
pub const AVCOL_RANGE_JPEG: i32 = 2;
pub const AVCOL_RANGE_NB: i32 = 3;

/// Visual content value range of a picture (native `AVColorRange`).
///
/// The native count sentinel reads as `Range::Unspecified`, as the native
/// unspecified value does.
#[derive(PartialEq, Eq, Structural, Clone, Copy, Debug)]
pub enum Range {
    Unspecified,
    /// Narrow or limited range content.
    ///
    /// For luma planes: `(219 * E + 16) * 2^(n-8)`; for chroma planes: `(224 * E + 128) * 2^(n-8)`.
    MPEG,
    /// Full range content.
    ///
    /// For RGB and luma planes: `(2^n - 1) * E`; for chroma planes: `(2^n - 1) * E + 2^(n - 1)`.
    JPEG,
}

impl NativeEnum for Range {
    open spec fn fallback() -> Range {
        Range::Unspecified
    }

    open spec fn spec_to_native(self) -> i32 {
        match self {
            Range::Unspecified => AVCOL_RANGE_UNSPECIFIED,
            Range::MPEG => AVCOL_RANGE_MPEG,
            Range::JPEG => AVCOL_RANGE_JPEG,
        }
    }

    open spec fn is_readable(self) -> bool {
        true
    }

    open spec fn spec_from_native(value: i32) -> Range {
        if exists|v: Range| v.is_readable() && v.spec_to_native() == value {
            choose|v: Range| v.is_readable() && v.spec_to_native() == value
        } else {
            Range::fallback()
        }
    }

    fn from_native(value: i32) -> (r: Range) {
        let r = match value {
            AVCOL_RANGE_MPEG => Range::MPEG,
            AVCOL_RANGE_JPEG => Range::JPEG,
            _ => Range::Unspecified,
        };
        proof {
            Range::round_trip(r);
        }
        r
    }

    fn to_native(self) -> (r: i32) {
        proof {
            Range::round_trip(self);
        }
        match self {
            Range::Unspecified => AVCOL_RANGE_UNSPECIFIED,
            Range::MPEG => AVCOL_RANGE_MPEG,
            Range::JPEG => AVCOL_RANGE_JPEG,
        }
    }

    proof fn to_native_injective(a: Range, b: Range) {
    }

    proof fn reads_are_readable(value: i32) {
    }

    proof fn round_trip(v: Range) {
        let w = choose|w: Range| w.is_readable() && w.spec_to_native() == v.spec_to_native();
        Range::to_native_injective(w, v);
    }

    proof fn unknown_values_fall_back(value: i32) {
    }
}

impl Range {
    /// The native name of this variant, given what the native name lookup
    /// returned for `to_native()`; `Range::Unspecified` has no name whatever the lookup said.
    pub fn name(&self, native_name: Option<String>) -> (r: Option<String>)
        ensures
            *self == Range::Unspecified ==> r is None,
            *self != Range::Unspecified ==> r == native_name,
    {
        if *self == Range::Unspecified {
            None
        } else {
            native_name
        }
    }

    /// The native count sentinel reads as the same fallback variant as
    /// the native value for an unspecified range.
    pub proof fn sentinel_falls_back()
        ensures
            Range::spec_from_native(AVCOL_RANGE_NB) == Range::Unspecified,
            Range::spec_from_native(AVCOL_RANGE_UNSPECIFIED) == Range::Unspecified,
    {
    }
}

} // verus!
