use vstd::prelude::*;

verus! {

/// A closed enumeration that mirrors a native integer enumeration.
///
/// Every variant has one native value, and no two variants share one; where
/// the native library gives one value two names, the second name is an
/// associated constant equal to the first variant. A native value reads as
/// the readable variant whose value it is, or as `fallback()` when there is
/// none. A variant that is not readable (a reserved code) can still be
/// written, but its native value reads as `fallback()`.
pub trait NativeEnum: Sized {
    /// The variant that every native value without a readable one of its own
    /// reads as.
    spec fn fallback() -> Self;

    /// The native value that stands for a variant.
    spec fn spec_to_native(self) -> i32;

    /// Whether some native value reads as this variant.
    spec fn is_readable(self) -> bool;

    /// The variant that a native value stands for: the readable one whose
    /// native value it is, else `fallback()`.
    spec fn spec_from_native(value: i32) -> Self;

    /// Reads a native value, whatever integer it is.
    fn from_native(value: i32) -> (r: Self)
        ensures
            r == Self::spec_from_native(value),
    ;

    /// The native value of a variant; a readable variant reads back as itself.
    fn to_native(self) -> (r: i32)
        ensures
            r == self.spec_to_native(),
            self.is_readable() ==> Self::spec_from_native(r) == self,
    ;

    /// No two variants have the same native value.
    proof fn to_native_injective(a: Self, b: Self)
        requires
            a.spec_to_native() == b.spec_to_native(),
        ensures
            a == b,
    ;

    /// Every native value reads as a readable variant.
    proof fn reads_are_readable(value: i32)
        ensures
            Self::spec_from_native(value).is_readable(),
    ;

    /// Converting a variant that some native value reads as to its native
    /// value and back gives the variant again.
    proof fn round_trip(v: Self)
        requires
            v.is_readable(),
        ensures
            Self::spec_from_native(v.spec_to_native()) == v,
    ;

    /// A native value reads as the fallback variant unless it is exactly the
    /// native value of the variant it reads as.
    proof fn unknown_values_fall_back(value: i32)
        ensures
            Self::spec_from_native(value) == Self::fallback() || Self::spec_from_native(
                value,
            ).spec_to_native() == value,
    ;
}

} // verus!
