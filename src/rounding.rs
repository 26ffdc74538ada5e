use vstd::prelude::*;

use crate::bridge::NativeEnum;

verus! {

pub const AV_ROUND_ZERO: i32 = 0;
pub const AV_ROUND_INF: i32 = 1;
pub const AV_ROUND_DOWN: i32 = 2;
pub const AV_ROUND_UP: i32 = 3;
pub const AV_ROUND_NEAR_INF: i32 = 5;
pub const AV_ROUND_PASS_MINMAX: i32 = 8192;

/// How to round (native `AVRounding`).
///
/// A native value without a variant reads as `Rounding::Zero`, the native default.
#[derive(PartialEq, Eq, Structural, Clone, Copy, Debug)]
pub enum Rounding {
    /// Round towards zero.
    Zero,
    /// Round away from zero.
    Infinity,
    /// Round toward -infinity.
    Down,
    /// Round toward +infinity.
    Up,
    /// Round to the nearest and halfway cases away from zero.
    NearInfinity,
    /// Flag telling rescaling functions to pass `INT64_MIN/MAX` through unchanged.
    PassMinMax,
}

impl NativeEnum for Rounding {
    open spec fn fallback() -> Rounding {
        Rounding::Zero
    }

    open spec fn spec_to_native(self) -> i32 {
        match self {
            Rounding::Zero => AV_ROUND_ZERO,
            Rounding::Infinity => AV_ROUND_INF,
            Rounding::Down => AV_ROUND_DOWN,
            Rounding::Up => AV_ROUND_UP,
            Rounding::NearInfinity => AV_ROUND_NEAR_INF,
            Rounding::PassMinMax => AV_ROUND_PASS_MINMAX,
        }
    }

    open spec fn is_readable(self) -> bool {
        true
    }

    open spec fn spec_from_native(value: i32) -> Rounding {
        if exists|v: Rounding| v.is_readable() && v.spec_to_native() == value {
            choose|v: Rounding| v.is_readable() && v.spec_to_native() == value
        } else {
            Rounding::fallback()
        }
    }

    fn from_native(value: i32) -> (r: Rounding) {
        let r = match value {
            AV_ROUND_INF => Rounding::Infinity,
            AV_ROUND_DOWN => Rounding::Down,
            AV_ROUND_UP => Rounding::Up,
            AV_ROUND_NEAR_INF => Rounding::NearInfinity,
            AV_ROUND_PASS_MINMAX => Rounding::PassMinMax,
            _ => Rounding::Zero,
        };
        proof {
            Rounding::round_trip(r);
        }
        r
    }

    fn to_native(self) -> (r: i32) {
        proof {
            Rounding::round_trip(self);
        }
        match self {
            Rounding::Zero => AV_ROUND_ZERO,
            Rounding::Infinity => AV_ROUND_INF,
            Rounding::Down => AV_ROUND_DOWN,
            Rounding::Up => AV_ROUND_UP,
            Rounding::NearInfinity => AV_ROUND_NEAR_INF,
            Rounding::PassMinMax => AV_ROUND_PASS_MINMAX,
        }
    }

    proof fn to_native_injective(a: Rounding, b: Rounding) {
    }

    proof fn reads_are_readable(value: i32) {
    }

    proof fn round_trip(v: Rounding) {
        let w = choose|w: Rounding| w.is_readable() && w.spec_to_native() == v.spec_to_native();
        Rounding::to_native_injective(w, v);
    }

    proof fn unknown_values_fall_back(value: i32) {
    }
}

} // verus!
