//! Bounded exponents and the numerals their arithmetic is carried out on.
//!
//! An exponent is a small integer. Exponents themselves cannot be added or
//! subtracted; an exponent within the bridged range is first turned into a
//! numeral, a machine integer with room to spare, the arithmetic happens there,
//! and the result is turned back, which is possible only if it lies within the
//! bridged range again.
use vstd::prelude::*;
use vstd::arithmetic::div_mod::lemma_div_nonincreasing;
use vstd::arithmetic::div_mod::lemma_div_pos_is_pos;
use crate::scale::quot;

verus! {

/// The smallest exponent that has a numeral.
pub const BRIDGE_MIN: i8 = -30;

/// The largest exponent that has a numeral.
pub const BRIDGE_MAX: i8 = 30;

/// Whether the integer `v` lies within the bridged range.
pub open spec fn in_bridge(v: int) -> bool {
    BRIDGE_MIN <= v <= BRIDGE_MAX
}

/// One fixed small integer, used as a scale exponent or as the exponent of a
/// base dimension.
#[derive(Clone, Copy, Debug, PartialEq, Eq, PartialOrd, Ord, Hash, Structural)]
pub struct Const(pub i8);

impl View for Const {
    type V = int;

    open spec fn view(&self) -> int {
        self.0 as int
    }
}

/// Conversion of an exponent into its numeral.
pub trait ToTypenum: Sized {
    type Output;

    /// Whether the value has a numeral.
    spec fn typenum_req(self) -> bool;

    /// The numeral of the value.
    spec fn typenum_spec(self) -> Self::Output;

    fn to_typenum(self) -> (n: Self::Output)
        requires
            self.typenum_req(),
        ensures
            n == self.typenum_spec(),
    ;
}

/// Conversion of a numeral back into an exponent.
pub trait ToConst: Sized {
    type Output;

    /// Whether the numeral stands for an exponent.
    spec fn const_req(self) -> bool;

    /// The exponent the numeral stands for.
    spec fn const_spec(self) -> Self::Output;

    fn to_const(self) -> (c: Self::Output)
        requires
            self.const_req(),
        ensures
            c == self.const_spec(),
    ;
}

impl ToTypenum for Const {
    type Output = isize;

    open spec fn typenum_req(self) -> bool {
        in_bridge(self@)
    }

    open spec fn typenum_spec(self) -> isize {
        self.0 as isize
    }

    fn to_typenum(self) -> (n: isize) {
        self.0 as isize
    }
}

impl ToConst for isize {
    type Output = Const;

    open spec fn const_req(self) -> bool {
        in_bridge(self as int)
    }

    open spec fn const_spec(self) -> Const {
        Const(self as i8)
    }

    fn to_const(self) -> (c: Const) {
        Const(self as i8)
    }
}

/// The bridge loses nothing: an exponent within the bridged range comes back
/// from its numeral unchanged, and so does a numeral within that range from
/// its exponent.
pub proof fn lemma_bridge_round_trip(c: Const, n: isize)
    ensures
        c.typenum_req() ==> c.typenum_spec().const_req() && c.typenum_spec().const_spec() == c,
        n.const_req() ==> n.const_spec().typenum_req() && n.const_spec().typenum_spec() == n,
{
}

/// A quotient rounded toward zero is no further from zero than the dividend.
proof fn lemma_quot_bounded(a: int, b: int)
    requires
        in_bridge(a),
        b != 0,
    ensures
        in_bridge(quot(a, b)),
{
    let x = if a >= 0 { a } else { -a };
    if b > 0 {
        lemma_div_nonincreasing(x, b);
        lemma_div_pos_is_pos(x, b);
    } else {
        assert(x / b == -(x / (-b))) by (nonlinear_arith)
            requires
                b < 0,
                x >= 0,
        ;
        lemma_div_nonincreasing(x, -b);
        lemma_div_pos_is_pos(x, -b);
    }
}

impl core::ops::Add<Const> for Const {
    type Output = Const;

    /// The sum, taken on the numerals.
    fn add(self, rhs: Const) -> (out: Const) {
        (self.to_typenum() + rhs.to_typenum()).to_const()
    }
}

impl vstd::std_specs::ops::AddSpecImpl<Const> for Const {
    open spec fn obeys_add_spec() -> bool {
        true
    }

    open spec fn add_req(self, rhs: Const) -> bool {
        in_bridge(self@) && in_bridge(rhs@) && in_bridge(self@ + rhs@)
    }

    open spec fn add_spec(self, rhs: Const) -> Const {
        Const((self@ + rhs@) as i8)
    }
}

impl core::ops::Sub<Const> for Const {
    type Output = Const;

    /// The difference, taken on the numerals.
    fn sub(self, rhs: Const) -> (out: Const) {
        (self.to_typenum() - rhs.to_typenum()).to_const()
    }
}

impl vstd::std_specs::ops::SubSpecImpl<Const> for Const {
    open spec fn obeys_sub_spec() -> bool {
        true
    }

    open spec fn sub_req(self, rhs: Const) -> bool {
        in_bridge(self@) && in_bridge(rhs@) && in_bridge(self@ - rhs@)
    }

    open spec fn sub_spec(self, rhs: Const) -> Const {
        Const((self@ - rhs@) as i8)
    }
}

impl core::ops::Mul<Const> for Const {
    type Output = Const;

    /// The product, taken on the numerals.
    fn mul(self, rhs: Const) -> (out: Const) {
        proof {
            let a = self@;
            let b = rhs@;
            assert(-900 <= a * b <= 900) by (nonlinear_arith)
                requires
                    -30 <= a <= 30,
                    -30 <= b <= 30,
            ;
        }
        (self.to_typenum() * rhs.to_typenum()).to_const()
    }
}

impl vstd::std_specs::ops::MulSpecImpl<Const> for Const {
    open spec fn obeys_mul_spec() -> bool {
        true
    }

    open spec fn mul_req(self, rhs: Const) -> bool {
        in_bridge(self@) && in_bridge(rhs@) && in_bridge(self@ * rhs@)
    }

    open spec fn mul_spec(self, rhs: Const) -> Const {
        Const((self@ * rhs@) as i8)
    }
}

impl core::ops::Div<Const> for Const {
    type Output = Const;

    /// The quotient, taken on the numerals, where it rounds toward zero.
    fn div(self, rhs: Const) -> (out: Const) {
        proof {
            lemma_quot_bounded(self@, rhs@);
        }
        (self.to_typenum() / rhs.to_typenum()).to_const()
    }
}

impl vstd::std_specs::ops::DivSpecImpl<Const> for Const {
    open spec fn obeys_div_spec() -> bool {
        true
    }

    open spec fn div_req(self, rhs: Const) -> bool {
        in_bridge(self@) && in_bridge(rhs@) && rhs@ != 0
    }

    open spec fn div_spec(self, rhs: Const) -> Const {
        Const(quot(self@, rhs@) as i8)
    }
}

impl core::ops::Neg for Const {
    type Output = Const;

    /// The negation, taken on the numeral.
    fn neg(self) -> (out: Const) {
        (-self.to_typenum()).to_const()
    }
}

impl vstd::std_specs::ops::NegSpecImpl for Const {
    open spec fn obeys_neg_spec() -> bool {
        true
    }

    open spec fn neg_req(self) -> bool {
        in_bridge(self@)
    }

    open spec fn neg_spec(self) -> Const {
        Const((-self@) as i8)
    }
}

} // verus!
