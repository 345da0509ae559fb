use uy::inner::Const;
use uy::inner::ToConst;
use uy::inner::ToTypenum;
use uy::inner::BRIDGE_MAX;
use uy::inner::BRIDGE_MIN;

#[test]
fn bridge_range_is_thirty_either_way() {
    assert_eq!(BRIDGE_MIN, -30);
    assert_eq!(BRIDGE_MAX, 30);
}

#[test]
fn exponent_to_numeral_keeps_the_integer() {
    assert_eq!(Const(5).to_typenum(), 5isize);
    assert_eq!(Const(-30).to_typenum(), -30isize);
    assert_eq!(Const(30).to_typenum(), 30isize);
    assert_eq!(Const(0).to_typenum(), 0isize);
}

#[test]
fn numeral_to_exponent_keeps_the_integer() {
    assert_eq!(5isize.to_const(), Const(5));
    assert_eq!((-30isize).to_const(), Const(-30));
    assert_eq!(30isize.to_const(), Const(30));
}

#[test]
fn bridge_round_trip_over_the_whole_range() {
    let mut i: i8 = -30;
    while i <= 30 {
        assert_eq!(Const(i).to_typenum().to_const(), Const(i));
        let n: isize = isize::from(i);
        assert_eq!(n.to_const().to_typenum(), n);
        i += 1;
    }
}

#[test]
fn exponents_add() {
    assert_eq!(Const(3) + Const(4), Const(7));
    assert_eq!(Const(-3) + Const(2), Const(-1));
    assert_eq!(Const(30) + Const(0), Const(30));
    assert_eq!(Const(-15) + Const(-15), Const(-30));
}

#[test]
fn exponents_subtract() {
    assert_eq!(Const(3) - Const(4), Const(-1));
    assert_eq!(Const(-3) - Const(2), Const(-5));
    assert_eq!(Const(0) - Const(30), Const(-30));
    assert_eq!(Const(15) - Const(-15), Const(30));
}

#[test]
fn exponents_multiply() {
    assert_eq!(Const(3) * Const(4), Const(12));
    assert_eq!(Const(-3) * Const(2), Const(-6));
    assert_eq!(Const(-5) * Const(-6), Const(30));
    assert_eq!(Const(17) * Const(0), Const(0));
}

#[test]
fn exponents_divide_toward_zero() {
    assert_eq!(Const(12) / Const(4), Const(3));
    assert_eq!(Const(-3) / Const(2), Const(-1));
    assert_eq!(Const(7) / Const(-2), Const(-3));
    assert_eq!(Const(-7) / Const(-2), Const(3));
    assert_eq!(Const(0) / Const(5), Const(0));
    assert_eq!(Const(2) / Const(3), Const(0));
    assert_eq!(Const(-30) / Const(-1), Const(30));
}

#[test]
fn exponents_negate() {
    assert_eq!(-Const(3), Const(-3));
    assert_eq!(-Const(-30), Const(30));
    assert_eq!(-Const(0), Const(0));
}

#[test]
fn exponent_view_is_its_field() {
    let c = Const(-12);
    assert_eq!(c.0, -12);
    let d = c;
    assert_eq!(c, d);
    assert!(Const(-1) < Const(1));
}
