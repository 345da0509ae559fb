//! Physical quantities whose units are checked before the program runs.
//!
//! A unit is a vector of integer exponents over the base dimensions of a unit
//! system, together with one power-of-ten scale exponent. Every operation on
//! quantities states, as a precondition, what must hold of the units involved,
//! so dimensionally inconsistent arithmetic is rejected by the verifier.
use vstd::prelude::*;

pub mod inner;
pub mod quantity;
pub mod scale;
pub mod system;

pub use crate::quantity::Quantity;
pub use crate::system::Descriptor;
pub use crate::system::UnitModel;
pub use crate::inner::Const;
use crate::scale::pow10;
use crate::scale::rescale;

verus! {

/// The factor ten to the power of the held exponent, by which a unit can be
/// multiplied or divided.
#[derive(Clone, Copy, Debug, PartialEq, Eq, Structural)]
pub struct TenTo(pub i8);

/// Raw values that can be rescaled by a power of ten.
///
/// A raw value stands for an integer, and its type can hold the integers of
/// some range. Rescaling is exact on those integers.
pub trait MulPowerOfTen: Sized {
    /// The integer that the raw value stands for.
    spec fn int_value(self) -> int;

    /// Whether a value of this type can stand for the integer `v`.
    spec fn representable(v: int) -> bool;

    /// A raw value stands for an integer its type can hold, and for no other
    /// raw value's integer.
    proof fn int_value_exact(a: Self, b: Self)
        ensures
            Self::representable(a.int_value()),
            a.int_value() == b.int_value() ==> a == b,
    ;

    /// Rescales the value for a unit whose scale exponent is larger by `exp`:
    /// multiplies by ten to the `-exp` when `exp` is negative, and otherwise
    /// divides by ten to the `exp`, rounding toward zero.
    fn mul_power_of_ten(self, exp: i8) -> (out: Self)
        requires
            exp < 0 ==> Self::representable(self.int_value() * pow10((-exp) as nat)),
        ensures
            out.int_value() == rescale(self.int_value(), exp as int),
    ;
}

/// Marker for types that describe a unit and may therefore tag a [`Quantity`].
pub trait Unit {

}

/// Conversion of a raw value measured in the unit `from` into the unit `self`.
pub trait UnitConvert<T, From>: Unit {
    /// Whether `val` can be carried over from `from` to `self`.
    spec fn convert_req(&self, from: &From, val: T) -> bool;

    /// Whether `out` is what `val`, measured in `from`, amounts to in `self`.
    spec fn convert_ensures(&self, from: &From, val: T, out: T) -> bool;

    fn unit_convert(&self, from: &From, val: T) -> (out: T)
        requires
            self.convert_req(from, val),
        ensures
            self.convert_ensures(from, val, out),
    ;
}

/// The unit that multiplying `A` by `B`, another unit or a power of ten,
/// gives.
pub type Product<A, B> = <A as core::ops::Mul<B>>::Output;

/// The unit that dividing `A` by `B`, another unit or a power of ten, gives.
pub type Quotient<A, B> = <A as core::ops::Div<B>>::Output;

} // verus!
