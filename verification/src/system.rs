//! The family of units over a fixed number of base dimensions.
//!
//! A unit of the family is described by one scale exponent and one exponent
//! for each of the `N` base dimensions. Units of one family are multiplied and
//! divided by adding and subtracting their exponents, and shifted in scale by
//! a power of ten.
use vstd::prelude::*;
use vstd::array::spec_array_fill_for_copy_type;
use vstd::array::spec_array_update;
use vstd::std_specs::ops::MulSpec;
use vstd::std_specs::ops::DivSpec;
use crate::inner::in_bridge;
use crate::inner::Const;
use crate::scale::pow10;
use crate::scale::rescale;
use crate::scale::lemma_rescale_round_trip;
use crate::MulPowerOfTen;
use crate::TenTo;
use crate::Unit;
use crate::UnitConvert;

verus! {

/// What a unit descriptor stands for: the scale exponent, and the exponent of
/// each base dimension in the order in which the family lists them.
pub ghost struct UnitModel {
    pub scale: int,
    pub dims: Seq<int>,
}

impl UnitModel {
    /// The unit of plain numbers, over `n` base dimensions.
    pub open spec fn dimensionless(n: nat) -> UnitModel {
        UnitModel { scale: 0, dims: Seq::new(n, |i: int| 0int) }
    }

    /// The unscaled unit of the base dimension `k` alone, over `n` base
    /// dimensions.
    pub open spec fn base(n: nat, k: int) -> UnitModel {
        UnitModel { scale: 0, dims: Seq::new(n, |i: int| if i == k { 1int } else { 0int }) }
    }

    /// The product of two units: exponents add.
    pub open spec fn times(self, rhs: UnitModel) -> UnitModel {
        UnitModel {
            scale: self.scale + rhs.scale,
            dims: Seq::new(self.dims.len(), |i: int| self.dims[i] + rhs.dims[i]),
        }
    }

    /// The quotient of two units: exponents subtract.
    pub open spec fn over(self, rhs: UnitModel) -> UnitModel {
        UnitModel {
            scale: self.scale - rhs.scale,
            dims: Seq::new(self.dims.len(), |i: int| self.dims[i] - rhs.dims[i]),
        }
    }

    /// The unit scaled by ten to the `n`.
    pub open spec fn shifted(self, n: int) -> UnitModel {
        UnitModel { scale: self.scale + n, dims: self.dims }
    }

    /// Whether every exponent lies within the bridged range.
    pub open spec fn bridged(self) -> bool {
        &&& in_bridge(self.scale)
        &&& forall|i: int| 0 <= i < self.dims.len() ==> in_bridge(#[trigger] self.dims[i])
    }

    /// Whether every exponent can be held by a descriptor.
    pub open spec fn storable(self) -> bool {
        &&& i8::MIN <= self.scale <= i8::MAX
        &&& forall|i: int| 0 <= i < self.dims.len() ==> i8::MIN <= #[trigger] self.dims[i] <= i8::MAX
    }
}

/// A unit of the family over `N` base dimensions.
#[derive(Clone, Copy, Debug, Eq, PartialOrd, Ord, Hash)]
pub struct Descriptor<const N: usize> {
    pub scale: Const,
    pub dims: [Const; N],
}

impl<const N: usize> View for Descriptor<N> {
    type V = UnitModel;

    open spec fn view(&self) -> UnitModel {
        UnitModel { scale: self.scale@, dims: Seq::new(N as nat, |i: int| self.dims[i]@) }
    }
}

impl<const N: usize> Unit for Descriptor<N> {

}

impl<const N: usize> PartialEq for Descriptor<N> {
    /// Two descriptors are equal when they agree in every exponent.
    fn eq(&self, other: &Self) -> (r: bool) {
        if self.scale != other.scale {
            return false;
        }
        let mut i: usize = 0;
        while i < N
            invariant
                0 <= i <= N,
                forall|j: int| 0 <= j < i ==> self.dims[j] == other.dims[j],
            decreases N - i,
        {
            if self.dims[i] != other.dims[i] {
                return false;
            }
            i += 1;
        }
        assert(self.dims =~= other.dims);
        true
    }
}

impl<const N: usize> vstd::std_specs::cmp::PartialEqSpecImpl for Descriptor<N> {
    open spec fn obeys_eq_spec() -> bool {
        true
    }

    open spec fn eq_spec(&self, other: &Self) -> bool {
        *self == *other
    }
}

impl<const N: usize> Descriptor<N> {
    /// The descriptor that stands for `m`.
    pub open spec fn of(m: UnitModel) -> Descriptor<N> {
        choose|d: Descriptor<N>| d@ == m
    }

    /// The unit with the given scale exponent and the given exponent for each
    /// base dimension.
    pub fn new(scale: i8, dims: [i8; N]) -> (d: Self)
        ensures
            d@ == (UnitModel { scale: scale as int, dims: Seq::new(N as nat, |i: int| dims[i] as int) }),
    {
        let mut out = [Const(0); N];
        let mut i: usize = 0;
        while i < N
            invariant
                0 <= i <= N,
                forall|j: int| 0 <= j < i ==> (#[trigger] out[j])@ == dims[j],
            decreases N - i,
        {
            out[i] = Const(dims[i]);
            i += 1;
        }
        let d = Descriptor { scale: Const(scale), dims: out };
        assert(d@.dims =~= Seq::new(N as nat, |i: int| dims[i] as int));
        d
    }

    /// The unit of plain numbers: every exponent is zero.
    pub fn dimensionless() -> (d: Self)
        ensures
            d@ == UnitModel::dimensionless(N as nat),
    {
        let d = Descriptor { scale: Const(0), dims: [Const(0); N] };
        assert(d@.dims =~= UnitModel::dimensionless(N as nat).dims);
        d
    }

    /// The unscaled unit of the base dimension `k` alone.
    pub fn base(k: usize) -> (d: Self)
        requires
            k < N,
        ensures
            d@ == UnitModel::base(N as nat, k as int),
    {
        let mut dims = [Const(0); N];
        dims[k] = Const(1);
        let d = Descriptor { scale: Const(0), dims };
        assert(d@.dims =~= UnitModel::base(N as nat, k as int).dims);
        d
    }
}

/// Two descriptors that stand for the same unit are the same descriptor.
pub proof fn lemma_view_injective<const N: usize>(a: Descriptor<N>, b: Descriptor<N>)
    requires
        a@ == b@,
    ensures
        a == b,
{
    assert forall|i: int| 0 <= i < N implies a.dims[i] == b.dims[i] by {
        assert(a@.dims[i] == a.dims[i]@);
        assert(b@.dims[i] == b.dims[i]@);
        assert(a.dims[i].0 == b.dims[i].0);
    }
    assert(a.dims =~= b.dims);
}

/// An array that agrees with the first `k` entries of `s`.
proof fn lemma_array_of<const N: usize>(s: Seq<Const>, k: nat) -> (a: [Const; N])
    requires
        k <= N,
        s.len() == N,
    ensures
        forall|i: int| 0 <= i < k ==> a[i] == s[i],
    decreases k,
{
    if k == 0 {
        spec_array_fill_for_copy_type::<Const, N>(Const(0))
    } else {
        let prev = lemma_array_of::<N>(s, (k - 1) as nat);
        spec_array_update(prev, k - 1, s[k - 1])
    }
}

/// Every unit over `N` base dimensions whose exponents can be stored has a
/// descriptor.
pub proof fn lemma_of_view<const N: usize>(m: UnitModel)
    requires
        m.dims.len() == N,
        m.storable(),
    ensures
        Descriptor::<N>::of(m)@ == m,
{
    let s = Seq::new(N as nat, |i: int| Const(m.dims[i] as i8));
    let a = lemma_array_of::<N>(s, N as nat);
    let d = Descriptor::<N> { scale: Const(m.scale as i8), dims: a };
    assert forall|i: int| 0 <= i < N implies d@.dims[i] == m.dims[i] by {
        assert(a[i] == s[i]);
        assert(i8::MIN <= m.dims[i] <= i8::MAX);
    }
    assert(d@.dims =~= m.dims);
}

/// The descriptor of a descriptor's unit is the descriptor itself.
pub proof fn lemma_of_own_view<const N: usize>(d: Descriptor<N>)
    ensures
        Descriptor::<N>::of(d@) == d,
{
    lemma_view_injective(Descriptor::<N>::of(d@), d);
}

impl<const N: usize> core::ops::Mul<Descriptor<N>> for Descriptor<N> {
    type Output = Descriptor<N>;

    /// The product of two units of the family.
    fn mul(self, rhs: Descriptor<N>) -> (out: Descriptor<N>)
        ensures
            out@ == self@.times(rhs@),
    {
        let mut dims = self.dims;
        let mut i: usize = 0;
        while i < N
            invariant
                0 <= i <= N,
                self@.bridged(),
                rhs@.bridged(),
                self@.times(rhs@).bridged(),
                forall|j: int| 0 <= j < i ==> (#[trigger] dims[j])@ == self.dims[j]@ + rhs.dims[j]@,
            decreases N - i,
        {
            proof {
                let j = i as int;
                assert(in_bridge(self@.dims[j]));
                assert(in_bridge(rhs@.dims[j]));
                assert(in_bridge(self@.times(rhs@).dims[j]));
            }
            dims[i] = self.dims[i] + rhs.dims[i];
            i += 1;
        }
        let out = Descriptor { scale: self.scale + rhs.scale, dims };
        proof {
            assert(out@.dims =~= self@.times(rhs@).dims);
            lemma_view_injective(out, Descriptor::<N>::of(self@.times(rhs@)));
        }
        out
    }
}

impl<const N: usize> vstd::std_specs::ops::MulSpecImpl<Descriptor<N>> for Descriptor<N> {
    open spec fn obeys_mul_spec() -> bool {
        true
    }

    open spec fn mul_req(self, rhs: Descriptor<N>) -> bool {
        self@.bridged() && rhs@.bridged() && self@.times(rhs@).bridged()
    }

    open spec fn mul_spec(self, rhs: Descriptor<N>) -> Descriptor<N> {
        Descriptor::<N>::of(self@.times(rhs@))
    }
}

impl<const N: usize> core::ops::Div<Descriptor<N>> for Descriptor<N> {
    type Output = Descriptor<N>;

    /// The quotient of two units of the family.
    fn div(self, rhs: Descriptor<N>) -> (out: Descriptor<N>)
        ensures
            out@ == self@.over(rhs@),
    {
        let mut dims = self.dims;
        let mut i: usize = 0;
        while i < N
            invariant
                0 <= i <= N,
                self@.bridged(),
                rhs@.bridged(),
                self@.over(rhs@).bridged(),
                forall|j: int| 0 <= j < i ==> (#[trigger] dims[j])@ == self.dims[j]@ - rhs.dims[j]@,
            decreases N - i,
        {
            proof {
                let j = i as int;
                assert(in_bridge(self@.dims[j]));
                assert(in_bridge(rhs@.dims[j]));
                assert(in_bridge(self@.over(rhs@).dims[j]));
            }
            dims[i] = self.dims[i] - rhs.dims[i];
            i += 1;
        }
        let out = Descriptor { scale: self.scale - rhs.scale, dims };
        proof {
            assert(out@.dims =~= self@.over(rhs@).dims);
            lemma_view_injective(out, Descriptor::<N>::of(self@.over(rhs@)));
        }
        out
    }
}

impl<const N: usize> vstd::std_specs::ops::DivSpecImpl<Descriptor<N>> for Descriptor<N> {
    open spec fn obeys_div_spec() -> bool {
        true
    }

    open spec fn div_req(self, rhs: Descriptor<N>) -> bool {
        self@.bridged() && rhs@.bridged() && self@.over(rhs@).bridged()
    }

    open spec fn div_spec(self, rhs: Descriptor<N>) -> Descriptor<N> {
        Descriptor::<N>::of(self@.over(rhs@))
    }
}

impl<const N: usize> core::ops::Mul<TenTo> for Descriptor<N> {
    type Output = Descriptor<N>;

    /// The unit scaled by a power of ten: only the scale exponent moves.
    fn mul(self, rhs: TenTo) -> (out: Descriptor<N>)
        ensures
            out@ == self@.shifted(rhs.0 as int),
    {
        Descriptor { scale: self.scale + Const(rhs.0), dims: self.dims }
    }
}

impl<const N: usize> vstd::std_specs::ops::MulSpecImpl<TenTo> for Descriptor<N> {
    open spec fn obeys_mul_spec() -> bool {
        true
    }

    open spec fn mul_req(self, rhs: TenTo) -> bool {
        in_bridge(self@.scale) && in_bridge(rhs.0 as int) && in_bridge(self@.scale + rhs.0)
    }

    open spec fn mul_spec(self, rhs: TenTo) -> Descriptor<N> {
        Descriptor { scale: Const((self@.scale + rhs.0) as i8), dims: self.dims }
    }
}

impl<const N: usize> core::ops::Div<TenTo> for Descriptor<N> {
    type Output = Descriptor<N>;

    /// The unit scaled down by a power of ten: only the scale exponent moves.
    fn div(self, rhs: TenTo) -> (out: Descriptor<N>)
        ensures
            out@ == self@.shifted(-(rhs.0 as int)),
    {
        Descriptor { scale: self.scale - Const(rhs.0), dims: self.dims }
    }
}

impl<const N: usize> vstd::std_specs::ops::DivSpecImpl<TenTo> for Descriptor<N> {
    open spec fn obeys_div_spec() -> bool {
        true
    }

    open spec fn div_req(self, rhs: TenTo) -> bool {
        in_bridge(self@.scale) && in_bridge(rhs.0 as int) && in_bridge(self@.scale - rhs.0)
    }

    open spec fn div_spec(self, rhs: TenTo) -> Descriptor<N> {
        Descriptor { scale: Const((self@.scale - rhs.0) as i8), dims: self.dims }
    }
}

impl<T: MulPowerOfTen, const N: usize> UnitConvert<T, Descriptor<N>> for Descriptor<N> {
    /// A conversion exists between two units that agree in every dimension
    /// exponent; where it enlarges the raw value, the result has to fit.
    open spec fn convert_req(&self, from: &Descriptor<N>, val: T) -> bool {
        &&& from@.dims == self@.dims
        &&& i8::MIN <= self@.scale - from@.scale <= i8::MAX
        &&& self@.scale < from@.scale ==> T::representable(
            val.int_value() * pow10((from@.scale - self@.scale) as nat),
        )
    }

    /// The raw value is rescaled by the difference of the scale exponents.
    open spec fn convert_ensures(&self, from: &Descriptor<N>, val: T, out: T) -> bool {
        out.int_value() == rescale(val.int_value(), self@.scale - from@.scale)
    }

    fn unit_convert(&self, from: &Descriptor<N>, val: T) -> (out: T) {
        val.mul_power_of_ten(self.scale.0 - from.scale.0)
    }
}

/// What the product of two descriptors stands for.
pub proof fn lemma_mul_view<const N: usize>(a: Descriptor<N>, b: Descriptor<N>)
    requires
        a.mul_req(b),
    ensures
        a.mul_spec(b)@ == a@.times(b@),
{
    lemma_of_view::<N>(a@.times(b@));
}

/// What the quotient of two descriptors stands for.
pub proof fn lemma_div_view<const N: usize>(a: Descriptor<N>, b: Descriptor<N>)
    requires
        a.div_req(b),
    ensures
        a.div_spec(b)@ == a@.over(b@),
{
    lemma_of_view::<N>(a@.over(b@));
}

/// Multiplying a unit by another and dividing the product by that other unit
/// gives the first unit back.
pub proof fn lemma_mul_then_div<const N: usize>(a: Descriptor<N>, b: Descriptor<N>)
    requires
        a.mul_req(b),
    ensures
        a.mul_spec(b).div_req(b),
        a.mul_spec(b).div_spec(b) == a,
{
    let p = a.mul_spec(b);
    lemma_mul_view(a, b);
    assert(p@.over(b@).dims =~= a@.dims);
    assert(p@.over(b@) == a@);
    lemma_of_own_view(a);
}

/// The dimensionless unit is neutral: multiplying a unit by it changes
/// nothing, and a unit divided by itself is the dimensionless unit.
pub proof fn lemma_dimensionless_neutral<const N: usize>(a: Descriptor<N>)
    requires
        a@.bridged(),
    ensures
        ({
            let one = Descriptor::<N>::of(UnitModel::dimensionless(N as nat));
            &&& one@ == UnitModel::dimensionless(N as nat)
            &&& a.mul_req(one)
            &&& a.mul_spec(one) == a
            &&& a.div_req(a)
            &&& a.div_spec(a) == one
        }),
{
    let one = Descriptor::<N>::of(UnitModel::dimensionless(N as nat));
    lemma_of_view::<N>(UnitModel::dimensionless(N as nat));
    assert(a@.times(one@).dims =~= a@.dims);
    assert(a@.times(one@) == a@);
    assert(a@.over(a@).dims =~= one@.dims);
    assert(a@.over(a@) == one@);
    lemma_of_own_view(a);
}

/// The order of the factors does not matter to a product of units.
pub proof fn lemma_mul_commutes<const N: usize>(a: Descriptor<N>, b: Descriptor<N>)
    requires
        a.mul_req(b),
    ensures
        b.mul_req(a),
        a.mul_spec(b) == b.mul_spec(a),
{
    assert(a@.times(b@).dims =~= b@.times(a@).dims);
    assert(a@.times(b@) == b@.times(a@));
}

/// Converting a raw value from the unit `a` to a unit `b` of the same
/// dimension and back to `a` restores it, provided the way there loses no
/// digits (it multiplies, or it divides without remainder) and the way back
/// has a scale difference that fits the exponent type.
pub proof fn lemma_convert_round_trip<T: MulPowerOfTen, const N: usize>(
    a: Descriptor<N>,
    b: Descriptor<N>,
    v: T,
    w: T,
    x: T,
)
    requires
        b.convert_req(&a, v),
        b.convert_ensures(&a, v, w),
        a.convert_ensures(&b, w, x),
        b@.scale <= a@.scale || v.int_value() % pow10((b@.scale - a@.scale) as nat) == 0,
        a@.scale - b@.scale <= i8::MAX,
    ensures
        a.convert_req(&b, w),
        x == v,
{
    lemma_rescale_round_trip(v.int_value(), b@.scale - a@.scale);
    T::int_value_exact(v, x);
}

} // verus!
