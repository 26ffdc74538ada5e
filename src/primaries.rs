use vstd::prelude::*;

use crate::bridge::NativeEnum;

verus! {

pub const AVCOL_PRI_RESERVED0: i32 = 0;
pub const AVCOL_PRI_BT709: i32 = 1;
pub const AVCOL_PRI_UNSPECIFIED: i32 = 2;
pub const AVCOL_PRI_RESERVED: i32 = 3;
pub const AVCOL_PRI_BT470M: i32 = 4;
pub const AVCOL_PRI_BT470BG: i32 = 5;
pub const AVCOL_PRI_SMPTE170M: i32 = 6;
pub const AVCOL_PRI_SMPTE240M: i32 = 7;
pub const AVCOL_PRI_FILM: i32 = 8;
pub const AVCOL_PRI_BT2020: i32 = 9;
pub const AVCOL_PRI_SMPTE428: i32 = 10;
pub const AVCOL_PRI_SMPTE431: i32 = 11;
pub const AVCOL_PRI_SMPTE432: i32 = 12;
pub const AVCOL_PRI_EBU3213: i32 = 22;
pub const AVCOL_PRI_JEDEC_P22: i32 = 22;
pub const AVCOL_PRI_NB: i32 = 23;

/// Chromaticity coordinates of the source primaries (native `AVColorPrimaries`).
///
/// Every native value without a readable variant, the reserved codes and the count
/// sentinel among them, reads as `Primaries::Unspecified`, as the native unspecified value does.
#[derive(PartialEq, Eq, Structural, Clone, Copy, Debug)]
pub enum Primaries {
    /// A reserved code: written as its native value, which reads as `Primaries::Unspecified`.
    Reserved0,
    /// Also ITU-R BT1361 / IEC 61966-2-4 / SMPTE RP 177 Annex B.
    BT709,
    Unspecified,
    /// A reserved code: written as its native value, which reads as `Primaries::Unspecified`.
    Reserved,
    /// Also FCC Title 47 Code of Federal Regulations 73.682 (a)(20).
    BT470M,
    /// Also ITU-R BT601-6 625 / ITU-R BT1358 625 / ITU-R BT1700 625 PAL & SECAM.
    BT470BG,
    /// Also ITU-R BT601-6 525 / ITU-R BT1358 525 / ITU-R BT1700 NTSC.
    SMPTE170M,
    /// Identical to SMPTE170M, also called "SMPTE C" even though it uses D65.
    SMPTE240M,
    /// Color filters using Illuminant C.
    Film,
    /// ITU-R BT2020.
    BT2020,
    /// SMPTE ST 428-1 (CIE 1931 XYZ).
    SMPTE428,
    /// SMPTE ST 431-2 (2011) / DCI P3.
    SMPTE431,
    /// SMPTE ST 432-1 (2010) / P3 D65 / Display P3.
    SMPTE432,
    /// EBU Tech. 3213-E / JEDEC P22 phosphors.
    EBU3213,
}

impl NativeEnum for Primaries {
    open spec fn fallback() -> Primaries {
        Primaries::Unspecified
    }

    open spec fn spec_to_native(self) -> i32 {
        match self {
            Primaries::Reserved0 => AVCOL_PRI_RESERVED0,
            Primaries::BT709 => AVCOL_PRI_BT709,
            Primaries::Unspecified => AVCOL_PRI_UNSPECIFIED,
            Primaries::Reserved => AVCOL_PRI_RESERVED,
            Primaries::BT470M => AVCOL_PRI_BT470M,
            Primaries::BT470BG => AVCOL_PRI_BT470BG,
            Primaries::SMPTE170M => AVCOL_PRI_SMPTE170M,
            Primaries::SMPTE240M => AVCOL_PRI_SMPTE240M,
            Primaries::Film => AVCOL_PRI_FILM,
            Primaries::BT2020 => AVCOL_PRI_BT2020,
            Primaries::SMPTE428 => AVCOL_PRI_SMPTE428,
            Primaries::SMPTE431 => AVCOL_PRI_SMPTE431,
            Primaries::SMPTE432 => AVCOL_PRI_SMPTE432,
            Primaries::EBU3213 => AVCOL_PRI_EBU3213,
        }
    }

    open spec fn is_readable(self) -> bool {
        !(self is Reserved0 || self is Reserved)
    }

    open spec fn spec_from_native(value: i32) -> Primaries {
        if exists|v: Primaries| v.is_readable() && v.spec_to_native() == value {
            choose|v: Primaries| v.is_readable() && v.spec_to_native() == value
        } else {
            Primaries::fallback()
        }
    }

    fn from_native(value: i32) -> (r: Primaries) {
        let r = match value {
            AVCOL_PRI_BT709 => Primaries::BT709,
            AVCOL_PRI_BT470M => Primaries::BT470M,
            AVCOL_PRI_BT470BG => Primaries::BT470BG,
            AVCOL_PRI_SMPTE170M => Primaries::SMPTE170M,
            AVCOL_PRI_SMPTE240M => Primaries::SMPTE240M,
            AVCOL_PRI_FILM => Primaries::Film,
            AVCOL_PRI_BT2020 => Primaries::BT2020,
            AVCOL_PRI_SMPTE428 => Primaries::SMPTE428,
            AVCOL_PRI_SMPTE431 => Primaries::SMPTE431,
            AVCOL_PRI_SMPTE432 => Primaries::SMPTE432,
            AVCOL_PRI_EBU3213 => Primaries::EBU3213,
            _ => Primaries::Unspecified,
        };
        proof {
            Primaries::round_trip(r);
        }
        r
    }

    fn to_native(self) -> (r: i32) {
        proof {
            if self.is_readable() {
                Primaries::round_trip(self);
            }
        }
        match self {
            Primaries::Reserved0 => AVCOL_PRI_RESERVED0,
            Primaries::BT709 => AVCOL_PRI_BT709,
            Primaries::Unspecified => AVCOL_PRI_UNSPECIFIED,
            Primaries::Reserved => AVCOL_PRI_RESERVED,
            Primaries::BT470M => AVCOL_PRI_BT470M,
            Primaries::BT470BG => AVCOL_PRI_BT470BG,
            Primaries::SMPTE170M => AVCOL_PRI_SMPTE170M,
            Primaries::SMPTE240M => AVCOL_PRI_SMPTE240M,
            Primaries::Film => AVCOL_PRI_FILM,
            Primaries::BT2020 => AVCOL_PRI_BT2020,
            Primaries::SMPTE428 => AVCOL_PRI_SMPTE428,
            Primaries::SMPTE431 => AVCOL_PRI_SMPTE431,
            Primaries::SMPTE432 => AVCOL_PRI_SMPTE432,
            Primaries::EBU3213 => AVCOL_PRI_EBU3213,
        }
    }

    proof fn to_native_injective(a: Primaries, b: Primaries) {
    }

    proof fn reads_are_readable(value: i32) {
    }

    proof fn round_trip(v: Primaries) {
        let w = choose|w: Primaries| w.is_readable() && w.spec_to_native() == v.spec_to_native();
        Primaries::to_native_injective(w, v);
    }

    proof fn unknown_values_fall_back(value: i32) {
    }
}

impl Primaries {
    /// Legacy name of `Primaries::EBU3213`: the same native value.
    pub const JEDEC_P22: Primaries = Primaries::EBU3213;

    /// The native name of this variant, given what the native name lookup
    /// returned for `to_native()`; `Primaries::Unspecified` has no name whatever the lookup said.
    pub fn name(&self, native_name: Option<String>) -> (r: Option<String>)
        ensures
            *self == Primaries::Unspecified ==> r is None,
            *self != Primaries::Unspecified ==> r == native_name,
    {
        if *self == Primaries::Unspecified {
            None
        } else {
            native_name
        }
    }

    /// The reserved codes and the native count sentinel read as the same
    /// fallback variant as the native value for an unspecified set of primaries.
    pub proof fn sentinel_falls_back()
        ensures
            Primaries::spec_from_native(AVCOL_PRI_RESERVED0) == Primaries::Unspecified,
            Primaries::spec_from_native(AVCOL_PRI_RESERVED) == Primaries::Unspecified,
            Primaries::spec_from_native(AVCOL_PRI_NB) == Primaries::Unspecified,
            Primaries::spec_from_native(AVCOL_PRI_UNSPECIFIED) == Primaries::Unspecified,
    {
    }
}

} // verus!
