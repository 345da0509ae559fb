//! Rescaling of raw integer values by powers of ten.
use vstd::prelude::*;
use vstd::arithmetic::div_mod::lemma_div_denominator;
use vstd::arithmetic::div_mod::lemma_div_by_multiple;
use vstd::arithmetic::div_mod::lemma_div_nonincreasing;
use vstd::arithmetic::div_mod::lemma_div_pos_is_pos;
use vstd::arithmetic::div_mod::lemma_fundamental_div_mod;
use vstd::arithmetic::div_mod::lemma_fundamental_div_mod_converse;
use crate::MulPowerOfTen;

verus! {

/// Ten to the power `k`.
pub open spec fn pow10(k: nat) -> int
    decreases k,
{
    if k == 0 {
        1
    } else {
        10 * pow10((k - 1) as nat)
    }
}

/// The quotient of `v` by `d`, rounded toward zero.
pub open spec fn quot(v: int, d: int) -> int {
    if v >= 0 {
        v / d
    } else {
        -((-v) / d)
    }
}

/// The raw value that stands for the same amount as `v` once the scale
/// exponent of its unit has grown by `exp`: `v` times ten to the `-exp` when
/// `exp` is negative, and `v` divided by ten to the `exp`, rounded toward zero,
/// otherwise.
pub open spec fn rescale(v: int, exp: int) -> int {
    if exp < 0 {
        v * pow10((-exp) as nat)
    } else {
        quot(v, pow10(exp as nat))
    }
}

/// Every power of ten is at least one.
pub proof fn lemma_pow10_positive(k: nat)
    ensures
        pow10(k) >= 1,
    decreases k,
{
    if k > 0 {
        lemma_pow10_positive((k - 1) as nat);
    }
}

/// Powers of ten grow with the exponent.
pub proof fn lemma_pow10_increases(a: nat, b: nat)
    requires
        a <= b,
    ensures
        pow10(a) <= pow10(b),
    decreases b,
{
    if a < b {
        lemma_pow10_increases(a, (b - 1) as nat);
        lemma_pow10_positive((b - 1) as nat);
    }
}

/// A product with a smaller power of ten lies between zero and the product
/// with a larger one.
proof fn lemma_partial_product(v: int, a: nat, b: nat)
    requires
        a <= b,
    ensures
        v >= 0 ==> 0 <= v * pow10(a) <= v * pow10(b),
        v <= 0 ==> v * pow10(b) <= v * pow10(a) <= 0,
{
    lemma_pow10_increases(a, b);
    lemma_pow10_positive(a);
    let p = pow10(a);
    let q = pow10(b);
    assert(v >= 0 ==> 0 <= v * p <= v * q) by (nonlinear_arith)
        requires
            1 <= p <= q,
    ;
    assert(v <= 0 ==> v * q <= v * p <= 0) by (nonlinear_arith)
        requires
            1 <= p <= q,
    ;
}

/// Multiplying by ten once more reaches the next power of ten.
proof fn lemma_product_step(v: int, k: nat)
    ensures
        (v * pow10(k)) * 10 == v * pow10(k + 1),
{
    let p = pow10(k);
    assert(pow10(k + 1) == 10 * p);
    assert((v * p) * 10 == v * (10 * p)) by (nonlinear_arith);
}

/// Dividing by ten once more, rounding toward zero each time, reaches the
/// quotient by the next power of ten.
proof fn lemma_quot_step(v: int, k: nat)
    ensures
        quot(quot(v, pow10(k)), 10) == quot(v, pow10(k + 1)),
{
    let p = pow10(k);
    lemma_pow10_positive(k);
    assert(pow10(k + 1) == 10 * p);
    assert(p * 10 == 10 * p) by (nonlinear_arith);
    let x = if v >= 0 { v } else { -v };
    lemma_div_denominator(x, p, 10);
    lemma_div_pos_is_pos(x, p);
}

/// Rounding toward zero never moves a quotient by a power of ten away from
/// zero, nor past the dividend.
pub proof fn lemma_rescale_shrinks(v: int, exp: int)
    requires
        exp >= 0,
    ensures
        v >= 0 ==> 0 <= rescale(v, exp) <= v,
        v <= 0 ==> v <= rescale(v, exp) <= 0,
{
    let p = pow10(exp as nat);
    lemma_pow10_positive(exp as nat);
    let x = if v >= 0 { v } else { -v };
    lemma_div_nonincreasing(x, p);
    lemma_div_pos_is_pos(x, p);
}

/// Rescaling by exponent zero changes nothing.
pub proof fn lemma_rescale_zero(v: int)
    ensures
        rescale(v, 0) == v,
{
    assert(pow10(0) == 1);
}

/// Rescaling by `exp` and then by `-exp` restores the value, provided the
/// division, if `exp` is positive, leaves no remainder.
pub proof fn lemma_rescale_round_trip(v: int, exp: int)
    requires
        exp <= 0 || v % pow10(exp as nat) == 0,
    ensures
        rescale(rescale(v, exp), -exp) == v,
{
    if exp == 0 {
        lemma_rescale_zero(v);
    } else if exp < 0 {
        let p = pow10((-exp) as nat);
        lemma_pow10_positive((-exp) as nat);
        let x = if v >= 0 { v } else { -v };
        lemma_div_by_multiple(x, p);
        assert(v >= 0 ==> v * p >= 0) by (nonlinear_arith)
            requires
                p >= 1,
        ;
        assert(v < 0 ==> v * p < 0 && -(v * p) == (-v) * p) by (nonlinear_arith)
            requires
                p >= 1,
        ;
    } else {
        let p = pow10(exp as nat);
        lemma_pow10_positive(exp as nat);
        let q = v / p;
        lemma_fundamental_div_mod(v, p);
        assert(q * p == v && (-q) * p + 0 == -v) by (nonlinear_arith)
            requires
                v == p * q,
        ;
        if v < 0 {
            lemma_fundamental_div_mod_converse(-v, p, -q, 0);
        }
    }
}

/// Rescales a non-negative value held in the widest unsigned type.
fn rescale_unsigned(v: u128, exp: i8) -> (out: u128)
    requires
        exp < 0 ==> v * pow10((-exp) as nat) <= u128::MAX,
    ensures
        out == rescale(v as int, exp as int),
{
    let mut out = v;
    let mut k: u8 = 0;
    if exp < 0 {
        let n: u8 = (-(exp as i16)) as u8;
        while k < n
            invariant
                k <= n,
                n == -exp,
                out == v * pow10(k as nat),
                v * pow10(n as nat) <= u128::MAX,
            decreases n - k,
        {
            proof {
                lemma_product_step(v as int, k as nat);
                lemma_partial_product(v as int, (k + 1) as nat, n as nat);
            }
            out = out * 10;
            k += 1;
        }
    } else {
        let n: u8 = exp as u8;
        while k < n
            invariant
                k <= n,
                n == exp,
                out == quot(v as int, pow10(k as nat)),
            decreases n - k,
        {
            proof {
                lemma_quot_step(v as int, k as nat);
            }
            out = out / 10;
            k += 1;
        }
    }
    out
}

/// Rescales a value held in the widest signed type in use.
fn rescale_signed(v: i64, exp: i8) -> (out: i64)
    requires
        exp < 0 ==> i64::MIN <= v * pow10((-exp) as nat) <= i64::MAX,
    ensures
        out == rescale(v as int, exp as int),
{
    let mut out = v;
    let mut k: u8 = 0;
    if exp < 0 {
        let n: u8 = (-(exp as i16)) as u8;
        while k < n
            invariant
                k <= n,
                n == -exp,
                out == v * pow10(k as nat),
                i64::MIN <= v * pow10(n as nat) <= i64::MAX,
            decreases n - k,
        {
            proof {
                lemma_product_step(v as int, k as nat);
                lemma_partial_product(v as int, (k + 1) as nat, n as nat);
            }
            out = out * 10;
            k += 1;
        }
    } else {
        let n: u8 = exp as u8;
        while k < n
            invariant
                k <= n,
                n == exp,
                out == quot(v as int, pow10(k as nat)),
            decreases n - k,
        {
            proof {
                lemma_quot_step(v as int, k as nat);
            }
            out = out / 10;
            k += 1;
        }
    }
    out
}

impl MulPowerOfTen for i8 {
    open spec fn int_value(self) -> int {
        self as int
    }

    open spec fn representable(v: int) -> bool {
        i8::MIN <= v <= i8::MAX
    }

    proof fn int_value_exact(a: Self, b: Self) {
    }

    fn mul_power_of_ten(self, exp: i8) -> (out: i8) {
        proof {
            if exp >= 0 {
                lemma_rescale_shrinks(self as int, exp as int);
            }
        }
        rescale_signed(self as i64, exp) as i8
    }
}

impl MulPowerOfTen for i16 {
    open spec fn int_value(self) -> int {
        self as int
    }

    open spec fn representable(v: int) -> bool {
        i16::MIN <= v <= i16::MAX
    }

    proof fn int_value_exact(a: Self, b: Self) {
    }

    fn mul_power_of_ten(self, exp: i8) -> (out: i16) {
        proof {
            if exp >= 0 {
                lemma_rescale_shrinks(self as int, exp as int);
            }
        }
        rescale_signed(self as i64, exp) as i16
    }
}

impl MulPowerOfTen for i32 {
    open spec fn int_value(self) -> int {
        self as int
    }

    open spec fn representable(v: int) -> bool {
        i32::MIN <= v <= i32::MAX
    }

    proof fn int_value_exact(a: Self, b: Self) {
    }

    fn mul_power_of_ten(self, exp: i8) -> (out: i32) {
        proof {
            if exp >= 0 {
                lemma_rescale_shrinks(self as int, exp as int);
            }
        }
        rescale_signed(self as i64, exp) as i32
    }
}

impl MulPowerOfTen for i64 {
    open spec fn int_value(self) -> int {
        self as int
    }

    open spec fn representable(v: int) -> bool {
        i64::MIN <= v <= i64::MAX
    }

    proof fn int_value_exact(a: Self, b: Self) {
    }

    fn mul_power_of_ten(self, exp: i8) -> (out: i64) {
        proof {
            if exp >= 0 {
                lemma_rescale_shrinks(self as int, exp as int);
            }
        }
        rescale_signed(self, exp)
    }
}

impl MulPowerOfTen for isize {
    open spec fn int_value(self) -> int {
        self as int
    }

    open spec fn representable(v: int) -> bool {
        isize::MIN <= v <= isize::MAX
    }

    proof fn int_value_exact(a: Self, b: Self) {
    }

    fn mul_power_of_ten(self, exp: i8) -> (out: isize) {
        proof {
            if exp >= 0 {
                lemma_rescale_shrinks(self as int, exp as int);
            }
        }
        rescale_signed(self as i64, exp) as isize
    }
}

impl MulPowerOfTen for u8 {
    open spec fn int_value(self) -> int {
        self as int
    }

    open spec fn representable(v: int) -> bool {
        u8::MIN <= v <= u8::MAX
    }

    proof fn int_value_exact(a: Self, b: Self) {
    }

    fn mul_power_of_ten(self, exp: i8) -> (out: u8) {
        proof {
            if exp >= 0 {
                lemma_rescale_shrinks(self as int, exp as int);
            }
        }
        rescale_unsigned(self as u128, exp) as u8
    }
}

impl MulPowerOfTen for u16 {
    open spec fn int_value(self) -> int {
        self as int
    }

    open spec fn representable(v: int) -> bool {
        u16::MIN <= v <= u16::MAX
    }

    proof fn int_value_exact(a: Self, b: Self) {
    }

    fn mul_power_of_ten(self, exp: i8) -> (out: u16) {
        proof {
            if exp >= 0 {
                lemma_rescale_shrinks(self as int, exp as int);
            }
        }
        rescale_unsigned(self as u128, exp) as u16
    }
}

impl MulPowerOfTen for u32 {
    open spec fn int_value(self) -> int {
        self as int
    }

    open spec fn representable(v: int) -> bool {
        u32::MIN <= v <= u32::MAX
    }

    proof fn int_value_exact(a: Self, b: Self) {
    }

    fn mul_power_of_ten(self, exp: i8) -> (out: u32) {
        proof {
            if exp >= 0 {
                lemma_rescale_shrinks(self as int, exp as int);
            }
        }
        rescale_unsigned(self as u128, exp) as u32
    }
}

impl MulPowerOfTen for u64 {
    open spec fn int_value(self) -> int {
        self as int
    }

    open spec fn representable(v: int) -> bool {
        u64::MIN <= v <= u64::MAX
    }

    proof fn int_value_exact(a: Self, b: Self) {
    }

    fn mul_power_of_ten(self, exp: i8) -> (out: u64) {
        proof {
            if exp >= 0 {
                lemma_rescale_shrinks(self as int, exp as int);
            }
        }
        rescale_unsigned(self as u128, exp) as u64
    }
}

impl MulPowerOfTen for u128 {
    open spec fn int_value(self) -> int {
        self as int
    }

    open spec fn representable(v: int) -> bool {
        u128::MIN <= v <= u128::MAX
    }

    proof fn int_value_exact(a: Self, b: Self) {
    }

    fn mul_power_of_ten(self, exp: i8) -> (out: u128) {
        proof {
            if exp >= 0 {
                lemma_rescale_shrinks(self as int, exp as int);
            }
        }
        rescale_unsigned(self, exp)
    }
}

} // verus!
