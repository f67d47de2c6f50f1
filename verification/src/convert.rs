//! Value-preserving conversion between integer domains.  Each executable
//! integer type carries a mathematical reading; a conversion succeeds exactly
//! when that reading fits the target type, and otherwise reports the
//! offending value in a typed error.

use vstd::prelude::*;
use vstd::string::StringExecFns;
use crate::basic_types::{int_repr, u64_decimal, LabyrinthError};

verus! {

/// An executable integer type with a mathematical reading.
pub trait IntCoord: Copy + Sized {
    /// The mathematical integer this value stands for.
    spec fn as_math(self) -> int;

    /// The smallest mathematical value of the type.
    spec fn min_math() -> int;

    /// The largest mathematical value of the type.
    spec fn max_math() -> int;

    /// Every value lies between the type's bounds.
    proof fn lemma_bounds(self)
        ensures
            Self::min_math() <= self.as_math() <= Self::max_math(),
    ;

    /// Two values with the same mathematical reading are equal.
    proof fn lemma_math_injective(a: Self, b: Self)
        requires
            a.as_math() == b.as_math(),
        ensures
            a == b,
    ;

    /// The decimal reading of the value, used in error messages.
    fn repr_string(self) -> (s: String)
        ensures
            s@ == int_repr(self.as_math()),
    ;
}

impl IntCoord for u32 {
    open spec fn as_math(self) -> int {
        self as int
    }

    open spec fn min_math() -> int {
        0
    }

    open spec fn max_math() -> int {
        u32::MAX as int
    }

    proof fn lemma_bounds(self) {
    }

    proof fn lemma_math_injective(a: u32, b: u32) {
    }

    fn repr_string(self) -> (s: String) {
        u64_decimal(self as u64)
    }
}

impl IntCoord for u64 {
    open spec fn as_math(self) -> int {
        self as int
    }

    open spec fn min_math() -> int {
        0
    }

    open spec fn max_math() -> int {
        u64::MAX as int
    }

    proof fn lemma_bounds(self) {
    }

    proof fn lemma_math_injective(a: u64, b: u64) {
    }

    fn repr_string(self) -> (s: String) {
        u64_decimal(self)
    }
}

impl IntCoord for usize {
    open spec fn as_math(self) -> int {
        self as int
    }

    open spec fn min_math() -> int {
        0
    }

    open spec fn max_math() -> int {
        usize::MAX as int
    }

    proof fn lemma_bounds(self) {
    }

    proof fn lemma_math_injective(a: usize, b: usize) {
    }

    fn repr_string(self) -> (s: String) {
        u64_decimal(self as u64)
    }
}

impl IntCoord for i32 {
    open spec fn as_math(self) -> int {
        self as int
    }

    open spec fn min_math() -> int {
        i32::MIN as int
    }

    open spec fn max_math() -> int {
        i32::MAX as int
    }

    proof fn lemma_bounds(self) {
    }

    proof fn lemma_math_injective(a: i32, b: i32) {
    }

    fn repr_string(self) -> (s: String) {
        if self >= 0 {
            u64_decimal(self as u64)
        } else {
            let mut s = String::from_str("-");
            let magnitude: u64 = (-(self as i64)) as u64;
            let digits = u64_decimal(magnitude);
            s.append(digits.as_str());
            proof {
                reveal_strlit("-");
                assert(s@ =~= int_repr(self as int));
            }
            s
        }
    }
}

/// Whether the exact value of `v` is representable in the type `S`.
pub open spec fn representable<S: IntCoord, T: IntCoord>(v: T) -> bool {
    S::min_math() <= v.as_math() <= S::max_math()
}

/// A target type of value-preserving conversion from `T`.
pub trait ConvertFrom<T: IntCoord>: IntCoord {
    /// The value of this type that stands for the same integer as `v`.
    /// Meaningful only when `representable(v)` holds.
    spec fn converted(v: T) -> Self;

    /// Converting a representable value preserves its mathematical reading.
    proof fn lemma_converted(v: T)
        requires
            representable::<Self, T>(v),
        ensures
            Self::converted(v).as_math() == v.as_math(),
    ;

    /// Converts `v` into this type.  Fails, with the offending value's
    /// decimal reading, exactly when `v` is not representable.
    fn convert_from(v: T) -> (r: Result<Self, LabyrinthError>)
        ensures
            r is Ok <==> representable::<Self, T>(v),
            r is Ok ==> r->Ok_0 == Self::converted(v),
            r is Err ==> (r->Err_0 matches LabyrinthError::ConversionError { value }
                && value@ == int_repr(v.as_math())),
    ;
}

impl ConvertFrom<u32> for u32 {
    open spec fn converted(v: u32) -> u32 {
        v
    }

    proof fn lemma_converted(v: u32) {
    }

    fn convert_from(v: u32) -> (r: Result<u32, LabyrinthError>) {
        Ok(v)
    }
}

impl ConvertFrom<i32> for u32 {
    open spec fn converted(v: i32) -> u32 {
        v as u32
    }

    proof fn lemma_converted(v: i32) {
    }

    fn convert_from(v: i32) -> (r: Result<u32, LabyrinthError>) {
        if v >= 0 {
            Ok(v as u32)
        } else {
            Err(LabyrinthError::ConversionError { value: v.repr_string() })
        }
    }
}

impl ConvertFrom<u64> for u32 {
    open spec fn converted(v: u64) -> u32 {
        v as u32
    }

    proof fn lemma_converted(v: u64) {
    }

    fn convert_from(v: u64) -> (r: Result<u32, LabyrinthError>) {
        if v <= u32::MAX as u64 {
            Ok(v as u32)
        } else {
            Err(LabyrinthError::ConversionError { value: v.repr_string() })
        }
    }
}

impl ConvertFrom<usize> for u32 {
    open spec fn converted(v: usize) -> u32 {
        v as u32
    }

    proof fn lemma_converted(v: usize) {
    }

    fn convert_from(v: usize) -> (r: Result<u32, LabyrinthError>) {
        if v <= u32::MAX as usize {
            Ok(v as u32)
        } else {
            Err(LabyrinthError::ConversionError { value: v.repr_string() })
        }
    }
}

impl ConvertFrom<u32> for i32 {
    open spec fn converted(v: u32) -> i32 {
        v as i32
    }

    proof fn lemma_converted(v: u32) {
    }

    fn convert_from(v: u32) -> (r: Result<i32, LabyrinthError>) {
        if v <= i32::MAX as u32 {
            Ok(v as i32)
        } else {
            Err(LabyrinthError::ConversionError { value: v.repr_string() })
        }
    }
}

impl ConvertFrom<u32> for u64 {
    open spec fn converted(v: u32) -> u64 {
        v as u64
    }

    proof fn lemma_converted(v: u32) {
    }

    fn convert_from(v: u32) -> (r: Result<u64, LabyrinthError>) {
        Ok(v as u64)
    }
}

impl ConvertFrom<u32> for usize {
    open spec fn converted(v: u32) -> usize {
        v as usize
    }

    proof fn lemma_converted(v: u32) {
    }

    fn convert_from(v: u32) -> (r: Result<usize, LabyrinthError>) {
        Ok(v as usize)
    }
}

/// The converse capability: a source type whose values convert into `S`.
/// Every `ConvertFrom` pair provides it.
pub trait ConvertInto<S: ConvertFrom<Self>>: IntCoord {
    /// Converts this value into `S`.  Fails, with the offending value's
    /// decimal reading, exactly when the value is not representable.
    fn convert_into(self) -> (r: Result<S, LabyrinthError>)
        ensures
            r is Ok <==> representable::<S, Self>(self),
            r is Ok ==> r->Ok_0 == S::converted(self),
            r is Err ==> (r->Err_0 matches LabyrinthError::ConversionError { value }
                && value@ == int_repr(self.as_math())),
    ;
}

impl<T: IntCoord, S: ConvertFrom<T>> ConvertInto<S> for T {
    fn convert_into(self) -> (r: Result<S, LabyrinthError>) {
        S::convert_from(self)
    }
}

/// Value-preserving conversion between two integer domains; fails, carrying
/// the offending value's decimal reading, exactly when the value does not
/// fit the target type.
pub fn convert<T: IntCoord, S: ConvertFrom<T>>(value: T) -> (r: Result<S, LabyrinthError>)
    ensures
        r is Ok <==> representable::<S, T>(value),
        r is Ok ==> r->Ok_0 == S::converted(value),
        r is Err ==> (r->Err_0 matches LabyrinthError::ConversionError { value: m }
            && m@ == int_repr(value.as_math())),
{
    S::convert_from(value)
}

/// Best-effort conversion between two integer domains.  Over integer
/// coordinates there is no fractional precision to give up, so this
/// coincides with `convert`: it still fails, carrying the offending
/// value's decimal reading, exactly on genuine overflow.  Conversions
/// from floating-point extents, where best effort and exact differ,
/// belong to the unverified rendering layer.
pub fn approx_convert<T: IntCoord, S: ConvertFrom<T>>(value: T) -> (r: Result<S, LabyrinthError>)
    ensures
        r is Ok <==> representable::<S, T>(value),
        r is Ok ==> r->Ok_0 == S::converted(value),
        r is Err ==> (r->Err_0 matches LabyrinthError::ConversionError { value: m }
            && m@ == int_repr(value.as_math())),
{
    S::convert_from(value)
}

/// Law: for a value representable in both domains, conversion round-trips;
/// converting there and back yields the value itself.
pub proof fn lemma_convert_round_trip<T, S>(v: T) where T: ConvertFrom<S>, S: ConvertFrom<T>
    requires
        representable::<S, T>(v),
    ensures
        representable::<T, S>(S::converted(v)),
        T::converted(S::converted(v)) == v,
{
    S::lemma_converted(v);
    v.lemma_bounds();
    T::lemma_converted(S::converted(v));
    T::lemma_math_injective(T::converted(S::converted(v)), v);
}

} // verus!
