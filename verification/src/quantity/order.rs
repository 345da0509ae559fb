//! Equality and order of quantities, which go by the raw value alone.
use vstd::prelude::*;
use vstd::std_specs::cmp::PartialEqSpec;
use vstd::std_specs::cmp::PartialOrdSpec;
use vstd::std_specs::cmp::OrdSpec;
use core::cmp::Ordering;
use crate::Unit;
use crate::quantity::Quantity;

verus! {

impl<T, U: Unit> Quantity<T, U> {
    /// Orders two quantities by their raw values.
    pub fn cmp(&self, other: &Self) -> (o: Ordering) where T: Ord
        ensures
            T::obeys_cmp_spec() ==> o == self.raw().cmp_spec(&other.raw()),
    {
        self.val.cmp(&other.val)
    }
}

impl<T: PartialEq, U: Unit> PartialEq for Quantity<T, U> {
    /// Two quantities are equal when their raw values are.
    fn eq(&self, other: &Self) -> (r: bool) {
        self.val == other.val
    }
}

impl<T: PartialEq, U: Unit> vstd::std_specs::cmp::PartialEqSpecImpl for Quantity<T, U> {
    open spec fn obeys_eq_spec() -> bool {
        T::obeys_eq_spec()
    }

    open spec fn eq_spec(&self, other: &Self) -> bool {
        self.raw().eq_spec(&other.raw())
    }
}

impl<T: Eq, U: Unit> Eq for Quantity<T, U> {

}

impl<T: PartialOrd, U: Unit> PartialOrd for Quantity<T, U> {
    /// Compares two quantities by their raw values.
    fn partial_cmp(&self, other: &Self) -> (r: Option<Ordering>) {
        self.val.partial_cmp(&other.val)
    }
}

impl<T: PartialOrd, U: Unit> vstd::std_specs::cmp::PartialOrdSpecImpl for Quantity<T, U> {
    open spec fn obeys_partial_cmp_spec() -> bool {
        T::obeys_partial_cmp_spec()
    }

    open spec fn partial_cmp_spec(&self, other: &Self) -> Option<Ordering> {
        self.raw().partial_cmp_spec(&other.raw())
    }
}

} // verus!
