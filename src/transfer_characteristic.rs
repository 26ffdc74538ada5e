use vstd::prelude::*;

use crate::bridge::NativeEnum;

verus! {

pub const AVCOL_TRC_RESERVED0: i32 = 0;
pub const AVCOL_TRC_BT709: i32 = 1;
pub const AVCOL_TRC_UNSPECIFIED: i32 = 2;
pub const AVCOL_TRC_RESERVED: i32 = 3;
pub const AVCOL_TRC_GAMMA22: i32 = 4;
pub const AVCOL_TRC_GAMMA28: i32 = 5;
pub const AVCOL_TRC_SMPTE170M: i32 = 6;
pub const AVCOL_TRC_SMPTE240M: i32 = 7;
pub const AVCOL_TRC_LINEAR: i32 = 8;
pub const AVCOL_TRC_LOG: i32 = 9;
pub const AVCOL_TRC_LOG_SQRT: i32 = 10;
pub const AVCOL_TRC_IEC61966_2_4: i32 = 11;
pub const AVCOL_TRC_BT1361_ECG: i32 = 12;
pub const AVCOL_TRC_IEC61966_2_1: i32 = 13;
pub const AVCOL_TRC_BT2020_10: i32 = 14;
pub const AVCOL_TRC_BT2020_12: i32 = 15;
pub const AVCOL_TRC_SMPTE2084: i32 = 16;
pub const AVCOL_TRC_SMPTE428: i32 = 17;
pub const AVCOL_TRC_ARIB_STD_B67: i32 = 18;
pub const AVCOL_TRC_NB: i32 = 19;

/// Color transfer characteristic (native `AVColorTransferCharacteristic`).
///
/// Every native value without a readable variant, the reserved codes and the count
/// sentinel among them, reads as `TransferCharacteristic::Unspecified`, as the native unspecified value does.
#[derive(PartialEq, Eq, Structural, Clone, Copy, Debug)]
pub enum TransferCharacteristic {
    /// A reserved code: written as its native value, which reads as `TransferCharacteristic::Unspecified`.
    Reserved0,
    /// Also ITU-R BT1361.
    BT709,
    Unspecified,
    /// A reserved code: written as its native value, which reads as `TransferCharacteristic::Unspecified`.
    Reserved,
    /// Also ITU-R BT470M / ITU-R BT1700 625 PAL & SECAM.
    GAMMA22,
    /// Also ITU-R BT470BG.
    GAMMA28,
    /// Also ITU-R BT601-6 525 or 625 / ITU-R BT1358 525 or 625 / ITU-R BT1700 NTSC.
    SMPTE170M,
    SMPTE240M,
    /// Linear transfer characteristics.
    Linear,
    /// Logarithmic transfer characteristic (100:1 range).
    Log,
    /// Logarithmic transfer characteristic (100 * Sqrt(10) : 1 range).
    LogSqrt,
    /// IEC 61966-2-4.
    IEC61966_2_4,
    /// ITU-R BT1361 Extended Color Gamut.
    BT1361_ECG,
    /// IEC 61966-2-1 (sRGB or sYCC).
    IEC61966_2_1,
    /// ITU-R BT2020 for 10-bit system.
    BT2020_10,
    /// ITU-R BT2020 for 12-bit system.
    BT2020_12,
    /// SMPTE ST 2084 for 10-, 12-, 14- and 16-bit systems.
    SMPTE2084,
    /// SMPTE ST 428-1.
    SMPTE428,
    /// ARIB STD-B67, known as "Hybrid log-gamma".
    ARIB_STD_B67,
}

impl NativeEnum for TransferCharacteristic {
    open spec fn fallback() -> TransferCharacteristic {
        TransferCharacteristic::Unspecified
    }

    open spec fn spec_to_native(self) -> i32 {
        match self {
            TransferCharacteristic::Reserved0 => AVCOL_TRC_RESERVED0,
            TransferCharacteristic::BT709 => AVCOL_TRC_BT709,
            TransferCharacteristic::Unspecified => AVCOL_TRC_UNSPECIFIED,
            TransferCharacteristic::Reserved => AVCOL_TRC_RESERVED,
            TransferCharacteristic::GAMMA22 => AVCOL_TRC_GAMMA22,
            TransferCharacteristic::GAMMA28 => AVCOL_TRC_GAMMA28,
            TransferCharacteristic::SMPTE170M => AVCOL_TRC_SMPTE170M,
            TransferCharacteristic::SMPTE240M => AVCOL_TRC_SMPTE240M,
            TransferCharacteristic::Linear => AVCOL_TRC_LINEAR,
            TransferCharacteristic::Log => AVCOL_TRC_LOG,
            TransferCharacteristic::LogSqrt => AVCOL_TRC_LOG_SQRT,
            TransferCharacteristic::IEC61966_2_4 => AVCOL_TRC_IEC61966_2_4,
            TransferCharacteristic::BT1361_ECG => AVCOL_TRC_BT1361_ECG,
            TransferCharacteristic::IEC61966_2_1 => AVCOL_TRC_IEC61966_2_1,
            TransferCharacteristic::BT2020_10 => AVCOL_TRC_BT2020_10,
            TransferCharacteristic::BT2020_12 => AVCOL_TRC_BT2020_12,
            TransferCharacteristic::SMPTE2084 => AVCOL_TRC_SMPTE2084,
            TransferCharacteristic::SMPTE428 => AVCOL_TRC_SMPTE428,
            TransferCharacteristic::ARIB_STD_B67 => AVCOL_TRC_ARIB_STD_B67,
        }
    }

    open spec fn is_readable(self) -> bool {
        !(self is Reserved0 || self is Reserved)
    }

    open spec fn spec_from_native(value: i32) -> TransferCharacteristic {
        if exists|v: TransferCharacteristic| v.is_readable() && v.spec_to_native() == value {
            choose|v: TransferCharacteristic| v.is_readable() && v.spec_to_native() == value
        } else {
            TransferCharacteristic::fallback()
        }
    }

    fn from_native(value: i32) -> (r: TransferCharacteristic) {
        let r = match value {
            AVCOL_TRC_BT709 => TransferCharacteristic::BT709,
            AVCOL_TRC_GAMMA22 => TransferCharacteristic::GAMMA22,
            AVCOL_TRC_GAMMA28 => TransferCharacteristic::GAMMA28,
            AVCOL_TRC_SMPTE170M => TransferCharacteristic::SMPTE170M,
            AVCOL_TRC_SMPTE240M => TransferCharacteristic::SMPTE240M,
            AVCOL_TRC_LINEAR => TransferCharacteristic::Linear,
            AVCOL_TRC_LOG => TransferCharacteristic::Log,
            AVCOL_TRC_LOG_SQRT => TransferCharacteristic::LogSqrt,
            AVCOL_TRC_IEC61966_2_4 => TransferCharacteristic::IEC61966_2_4,
            AVCOL_TRC_BT1361_ECG => TransferCharacteristic::BT1361_ECG,
            AVCOL_TRC_IEC61966_2_1 => TransferCharacteristic::IEC61966_2_1,
            AVCOL_TRC_BT2020_10 => TransferCharacteristic::BT2020_10,
            AVCOL_TRC_BT2020_12 => TransferCharacteristic::BT2020_12,
            AVCOL_TRC_SMPTE2084 => TransferCharacteristic::SMPTE2084,
            AVCOL_TRC_SMPTE428 => TransferCharacteristic::SMPTE428,
            AVCOL_TRC_ARIB_STD_B67 => TransferCharacteristic::ARIB_STD_B67,
            _ => TransferCharacteristic::Unspecified,
        };
        proof {
            TransferCharacteristic::round_trip(r);
        }
        r
    }

    fn to_native(self) -> (r: i32) {
        proof {
            if self.is_readable() {
                TransferCharacteristic::round_trip(self);
            }
        }
        match self {
            TransferCharacteristic::Reserved0 => AVCOL_TRC_RESERVED0,
            TransferCharacteristic::BT709 => AVCOL_TRC_BT709,
            TransferCharacteristic::Unspecified => AVCOL_TRC_UNSPECIFIED,
            TransferCharacteristic::Reserved => AVCOL_TRC_RESERVED,
            TransferCharacteristic::GAMMA22 => AVCOL_TRC_GAMMA22,
            TransferCharacteristic::GAMMA28 => AVCOL_TRC_GAMMA28,
            TransferCharacteristic::SMPTE170M => AVCOL_TRC_SMPTE170M,
            TransferCharacteristic::SMPTE240M => AVCOL_TRC_SMPTE240M,
            TransferCharacteristic::Linear => AVCOL_TRC_LINEAR,
            TransferCharacteristic::Log => AVCOL_TRC_LOG,
            TransferCharacteristic::LogSqrt => AVCOL_TRC_LOG_SQRT,
            TransferCharacteristic::IEC61966_2_4 => AVCOL_TRC_IEC61966_2_4,
            TransferCharacteristic::BT1361_ECG => AVCOL_TRC_BT1361_ECG,
            TransferCharacteristic::IEC61966_2_1 => AVCOL_TRC_IEC61966_2_1,
            TransferCharacteristic::BT2020_10 => AVCOL_TRC_BT2020_10,
            TransferCharacteristic::BT2020_12 => AVCOL_TRC_BT2020_12,
            TransferCharacteristic::SMPTE2084 => AVCOL_TRC_SMPTE2084,
            TransferCharacteristic::SMPTE428 => AVCOL_TRC_SMPTE428,
            TransferCharacteristic::ARIB_STD_B67 => AVCOL_TRC_ARIB_STD_B67,
        }
    }

    proof fn to_native_injective(a: TransferCharacteristic, b: TransferCharacteristic) {
    }

    proof fn reads_are_readable(value: i32) {
    }

    proof fn round_trip(v: TransferCharacteristic) {
        let w = choose|w: TransferCharacteristic| w.is_readable() && w.spec_to_native() == v.spec_to_native();
        TransferCharacteristic::to_native_injective(w, v);
    }

    proof fn unknown_values_fall_back(value: i32) {
    }
}

impl TransferCharacteristic {
    /// The native name of this variant, given what the native name lookup
    /// returned for `to_native()`; `TransferCharacteristic::Unspecified` has no name whatever the lookup said.
    pub fn name(&self, native_name: Option<String>) -> (r: Option<String>)
        ensures
            *self == TransferCharacteristic::Unspecified ==> r is None,
            *self != TransferCharacteristic::Unspecified ==> r == native_name,
    {
        if *self == TransferCharacteristic::Unspecified {
            None
        } else {
            native_name
        }
    }

    /// The reserved codes and the native count sentinel read as the same
    /// fallback variant as the native value for an unspecified transfer characteristic.
    pub proof fn sentinel_falls_back()
        ensures
            TransferCharacteristic::spec_from_native(AVCOL_TRC_RESERVED0) == TransferCharacteristic::Unspecified,
            TransferCharacteristic::spec_from_native(AVCOL_TRC_RESERVED) == TransferCharacteristic::Unspecified,
            TransferCharacteristic::spec_from_native(AVCOL_TRC_NB) == TransferCharacteristic::Unspecified,
            TransferCharacteristic::spec_from_native(AVCOL_TRC_UNSPECIFIED) == TransferCharacteristic::Unspecified,
    {
    }
}

} // verus!
