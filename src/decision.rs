use vstd::prelude::*;

use crate::bridge::NativeEnum;

verus! {

pub const FF_MB_DECISION_SIMPLE: i32 = 0;
pub const FF_MB_DECISION_BITS: i32 = 1;
pub const FF_MB_DECISION_RD: i32 = 2;

/// Macroblock decision mode of an encoder (native `FF_MB_DECISION_*`).
///
/// A native value without a variant reads as `Decision::Simple`.
#[derive(PartialEq, Eq, Structural, Clone, Copy, Debug)]
pub enum Decision {
    /// Uses `mb_cmp`.
    Simple,
    /// Chooses the one which needs the fewest bits.
    Bits,
    /// Rate distortion.
    RateDistortion,
}

impl NativeEnum for Decision {
    open spec fn fallback() -> Decision {
        Decision::Simple
    }

    open spec fn spec_to_native(self) -> i32 {
        match self {
            Decision::Simple => FF_MB_DECISION_SIMPLE,
            Decision::Bits => FF_MB_DECISION_BITS,
            Decision::RateDistortion => FF_MB_DECISION_RD,
        }
    }

    open spec fn is_readable(self) -> bool {
        true
    }

    open spec fn spec_from_native(value: i32) -> Decision {
        if exists|v: Decision| v.is_readable() && v.spec_to_native() == value {
            choose|v: Decision| v.is_readable() && v.spec_to_native() == value
        } else {
            Decision::fallback()
        }
    }

    fn from_native(value: i32) -> (r: Decision) {
        let r = match value {
            FF_MB_DECISION_BITS => Decision::Bits,
            FF_MB_DECISION_RD => Decision::RateDistortion,
            _ => Decision::Simple,
        };
        proof {
            Decision::round_trip(r);
        }
        r
    }

    fn to_native(self) -> (r: i32) {
        proof {
            Decision::round_trip(self);
        }
        match self {
            Decision::Simple => FF_MB_DECISION_SIMPLE,
            Decision::Bits => FF_MB_DECISION_BITS,
            Decision::RateDistortion => FF_MB_DECISION_RD,
        }
    }

    proof fn to_native_injective(a: Decision, b: Decision) {
    }

    proof fn reads_are_readable(value: i32) {
    }

    proof fn round_trip(v: Decision) {
        let w = choose|w: Decision| w.is_readable() && w.spec_to_native() == v.spec_to_native();
        Decision::to_native_injective(w, v);
    }

    proof fn unknown_values_fall_back(value: i32) {
    }
}

} // verus!
