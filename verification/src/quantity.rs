//! The container that pairs a raw value with its unit.
use vstd::prelude::*;
use vstd::std_specs::ops::AddSpec;
use vstd::std_specs::ops::SubSpec;
use vstd::std_specs::ops::MulSpec;
use vstd::std_specs::ops::DivSpec;
use crate::Unit;
use crate::UnitConvert;

mod order;

verus! {

/// A raw value tagged with the unit it is measured in.
#[derive(Debug)]
pub struct Quantity<T, U: Unit> {
    val: T,
    unit: U,
}

impl<T, U: Unit> Quantity<T, U> {
    /// The raw value.
    pub closed spec fn raw(self) -> T {
        self.val
    }

    /// The unit the raw value is measured in.
    pub closed spec fn descriptor(self) -> U {
        self.unit
    }

    /// The quantity of raw value `val` in the unit `unit`.
    pub closed spec fn of(val: T, unit: U) -> Self {
        Quantity { val, unit }
    }

    /// A quantity is its raw value together with its unit, and nothing else.
    pub proof fn lemma_of(val: T, unit: U)
        ensures
            Self::of(val, unit).raw() == val,
            Self::of(val, unit).descriptor() == unit,
            forall|q: Self| q.raw() == val && q.descriptor() == unit ==> q == Self::of(val, unit),
    {
    }

    /// Tags `val` with `unit`.
    pub fn new(val: T, unit: U) -> (q: Self)
        ensures
            q.raw() == val,
            q.descriptor() == unit,
    {
        Quantity { val, unit }
    }

    /// The unit of this quantity.
    pub fn unit(&self) -> (u: &U)
        ensures
            *u == self.descriptor(),
    {
        &self.unit
    }

    /// Re-expresses the quantity in the unit `to`.
    pub fn convert<Y: UnitConvert<T, U>>(self, to: Y) -> (q: Quantity<T, Y>)
        requires
            to.convert_req(&self.descriptor(), self.raw()),
        ensures
            to.convert_ensures(&self.descriptor(), self.raw(), q.raw()),
            q.descriptor() == to,
    {
        let val = to.unit_convert(&self.unit, self.val);
        Quantity::new(val, to)
    }
}

impl<T, U: Unit> core::ops::Deref for Quantity<T, U> {
    type Target = T;

    /// The raw value.
    fn deref(&self) -> (v: &T)
        ensures
            *v == self.raw(),
    {
        &self.val
    }
}

impl<T, U: Unit> core::ops::DerefMut for Quantity<T, U> {
    /// Mutable access to the raw value; the unit stays as it is.
    fn deref_mut(&mut self) -> (v: &mut T)
        ensures
            *v == old(self).raw(),
            final(self).raw() == *final(v),
            final(self).descriptor() == old(self).descriptor(),
    {
        &mut self.val
    }
}

impl<T: core::hash::Hash, U: Unit> core::hash::Hash for Quantity<T, U> {
    /// Feeds the raw value, and nothing of the unit, to the hasher through
    /// `core::hash::Hash::hash`; nothing is claimed of the hasher's state.
    #[verifier::external_body]
    fn hash<H: core::hash::Hasher>(&self, state: &mut H) {
        self.val.hash(state)
    }
}

impl<T, U: Unit> core::convert::From<(T, U)> for Quantity<T, U> {
    /// Tags the first component with the second.
    fn from(pair: (T, U)) -> (q: Self)
        ensures
            q.raw() == pair.0,
            q.descriptor() == pair.1,
    {
        Quantity::new(pair.0, pair.1)
    }
}

impl<T, U: Unit> vstd::std_specs::convert::FromSpecImpl<(T, U)> for Quantity<T, U> {
    open spec fn obeys_from_spec() -> bool {
        true
    }

    open spec fn from_spec(pair: (T, U)) -> Self {
        Quantity::of(pair.0, pair.1)
    }
}

impl<T: Clone, U: Unit + Clone> Clone for Quantity<T, U> {
    /// Clones the raw value and the unit, each by its own `clone`.
    fn clone(&self) -> (q: Self)
        ensures
            cloned::<T>(self.raw(), q.raw()),
            cloned::<U>(self.descriptor(), q.descriptor()),
    {
        Quantity { val: self.val.clone(), unit: self.unit.clone() }
    }
}

impl<T: Copy, U: Unit + Copy> Copy for Quantity<T, U> {

}

impl<T, U: Unit> core::ops::Add<Quantity<T, U>> for Quantity<T, U> where T: core::ops::Add<Output = T> {
    type Output = Quantity<T, U>;

    /// The sum of two quantities of one unit, in that unit.
    fn add(self, rhs: Quantity<T, U>) -> (out: Quantity<T, U>)
        ensures
            T::obeys_add_spec() ==> out.raw() == self.raw().add_spec(rhs.raw()),
            out.descriptor() == self.descriptor(),
    {
        Quantity { val: self.val + rhs.val, unit: self.unit }
    }
}

impl<T, U: Unit> vstd::std_specs::ops::AddSpecImpl<Quantity<T, U>> for Quantity<T, U> where T: core::ops::Add<Output = T> {
    open spec fn obeys_add_spec() -> bool {
        T::obeys_add_spec()
    }

    open spec fn add_req(self, rhs: Quantity<T, U>) -> bool {
        self.descriptor() == rhs.descriptor() && self.raw().add_req(rhs.raw())
    }

    open spec fn add_spec(self, rhs: Quantity<T, U>) -> Quantity<T, U> {
        Quantity::of(self.raw().add_spec(rhs.raw()), self.descriptor())
    }
}

impl<T, U: Unit> core::ops::Sub<Quantity<T, U>> for Quantity<T, U> where T: core::ops::Sub<Output = T> {
    type Output = Quantity<T, U>;

    /// The difference of two quantities of one unit, in that unit.
    fn sub(self, rhs: Quantity<T, U>) -> (out: Quantity<T, U>)
        ensures
            T::obeys_sub_spec() ==> out.raw() == self.raw().sub_spec(rhs.raw()),
            out.descriptor() == self.descriptor(),
    {
        Quantity { val: self.val - rhs.val, unit: self.unit }
    }
}

impl<T, U: Unit> vstd::std_specs::ops::SubSpecImpl<Quantity<T, U>> for Quantity<T, U> where T: core::ops::Sub<Output = T> {
    open spec fn obeys_sub_spec() -> bool {
        T::obeys_sub_spec()
    }

    open spec fn sub_req(self, rhs: Quantity<T, U>) -> bool {
        self.descriptor() == rhs.descriptor() && self.raw().sub_req(rhs.raw())
    }

    open spec fn sub_spec(self, rhs: Quantity<T, U>) -> Quantity<T, U> {
        Quantity::of(self.raw().sub_spec(rhs.raw()), self.descriptor())
    }
}

impl<T, U1: Unit, U2: Unit> core::ops::Mul<Quantity<T, U2>> for Quantity<T, U1> where
    T: core::ops::Mul<Output = T>,
    U1: core::ops::Mul<U2>,
    <U1 as core::ops::Mul<U2>>::Output: Unit,
{
    type Output = Quantity<T, <U1 as core::ops::Mul<U2>>::Output>;

    /// The product of two quantities, in the product of their units.
    fn mul(self, rhs: Quantity<T, U2>) -> (out: Self::Output)
        ensures
            T::obeys_mul_spec() ==> out.raw() == self.raw().mul_spec(rhs.raw()),
            U1::obeys_mul_spec() ==> out.descriptor() == self.descriptor().mul_spec(rhs.descriptor()),
    {
        Quantity { val: self.val * rhs.val, unit: self.unit * rhs.unit }
    }
}

impl<T, U1: Unit, U2: Unit> vstd::std_specs::ops::MulSpecImpl<Quantity<T, U2>> for Quantity<T, U1> where
    T: core::ops::Mul<Output = T>,
    U1: core::ops::Mul<U2>,
    <U1 as core::ops::Mul<U2>>::Output: Unit,
{
    open spec fn obeys_mul_spec() -> bool {
        T::obeys_mul_spec() && U1::obeys_mul_spec()
    }

    open spec fn mul_req(self, rhs: Quantity<T, U2>) -> bool {
        self.raw().mul_req(rhs.raw()) && self.descriptor().mul_req(rhs.descriptor())
    }

    open spec fn mul_spec(self, rhs: Quantity<T, U2>) -> Self::Output {
        Quantity::of(self.raw().mul_spec(rhs.raw()), self.descriptor().mul_spec(rhs.descriptor()))
    }
}

impl<T, U1: Unit, U2: Unit> core::ops::Div<Quantity<T, U2>> for Quantity<T, U1> where
    T: core::ops::Div<Output = T>,
    U1: core::ops::Div<U2>,
    <U1 as core::ops::Div<U2>>::Output: Unit,
{
    type Output = Quantity<T, <U1 as core::ops::Div<U2>>::Output>;

    /// The quotient of two quantities, in the quotient of their units.
    fn div(self, rhs: Quantity<T, U2>) -> (out: Self::Output)
        ensures
            T::obeys_div_spec() ==> out.raw() == self.raw().div_spec(rhs.raw()),
            U1::obeys_div_spec() ==> out.descriptor() == self.descriptor().div_spec(rhs.descriptor()),
    {
        Quantity { val: self.val / rhs.val, unit: self.unit / rhs.unit }
    }
}

impl<T, U1: Unit, U2: Unit> vstd::std_specs::ops::DivSpecImpl<Quantity<T, U2>> for Quantity<T, U1> where
    T: core::ops::Div<Output = T>,
    U1: core::ops::Div<U2>,
    <U1 as core::ops::Div<U2>>::Output: Unit,
{
    open spec fn obeys_div_spec() -> bool {
        T::obeys_div_spec() && U1::obeys_div_spec()
    }

    open spec fn div_req(self, rhs: Quantity<T, U2>) -> bool {
        self.raw().div_req(rhs.raw()) && self.descriptor().div_req(rhs.descriptor())
    }

    open spec fn div_spec(self, rhs: Quantity<T, U2>) -> Self::Output {
        Quantity::of(self.raw().div_spec(rhs.raw()), self.descriptor().div_spec(rhs.descriptor()))
    }
}

} // verus!
