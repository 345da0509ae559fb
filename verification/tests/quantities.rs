use std::cmp::Ordering;
use std::collections::hash_map::DefaultHasher;
use std::hash::Hash;
use std::hash::Hasher;
use uy::Descriptor;
use uy::Product;
use uy::Quantity;
use uy::Quotient;
use uy::TenTo;
use uy::Unit;

type Si = Descriptor<8>;

#[derive(Debug, Clone, Copy, PartialEq)]
struct Apples;

impl Unit for Apples {}

fn unit() -> Si {
    Descriptor::dimensionless()
}

fn s() -> Si {
    Descriptor::base(0)
}

fn m() -> Si {
    Descriptor::base(1)
}

fn kg() -> Si {
    Descriptor::base(2)
}

fn hash_of<H: Hash>(value: &H) -> u64 {
    let mut hasher = DefaultHasher::new();
    value.hash(&mut hasher);
    hasher.finish()
}

#[test]
fn basic_arithmetic() {
    let a: Quantity<i32, Si> = Quantity::new(10, m());
    let b: Quantity<i32, Si> = Quantity::new(3, m());
    let sum = a + b;
    assert_eq!(*sum, 13);
    assert_eq!(*sum.unit(), m());
    let difference = a - b;
    assert_eq!(*difference, 7);
    assert_eq!(*difference.unit(), m());
}

#[test]
fn unit_algebra() {
    let a: Quantity<i32, Si> = Quantity::new(6, m());
    let b: Quantity<i32, Si> = Quantity::new(4, m());
    let area = a * b;
    assert_eq!(*area, 24);
    assert_eq!(*area.unit(), m() * m());
    let c: Quantity<i32, Si> = Quantity::new(3, m());
    let length = area / c;
    assert_eq!(*length, 8);
    assert_eq!(*length.unit(), m());
}

#[test]
fn unitless_division() {
    let a: Quantity<i32, Si> = Quantity::new(10, m());
    let b: Quantity<i32, Si> = Quantity::new(5, m());
    let ratio = a / b;
    assert_eq!(*ratio, 2);
    assert_eq!(*ratio.unit(), unit());
}

#[test]
fn prefix_conversion() {
    let a: Quantity<i32, Si> = Quantity::new(3, m());
    let b = a.convert(m() * TenTo(-3));
    assert_eq!(*b, 3000);
    assert_eq!(*b.unit(), Descriptor::new(-3, [0, 1, 0, 0, 0, 0, 0, 0]));
    let c = b.convert(m());
    assert_eq!(*c, 3);
    assert_eq!(*c.unit(), m());
}

#[test]
fn derived_unit_algebra() {
    let newton: Si = kg() * (m() / (s() * s()));
    let joule: Si = m() * newton;
    let mass: Quantity<i32, Si> = Quantity::new(10, kg());
    let acceleration: Quantity<i32, Si> = Quantity::new(5, m() / (s() * s()));
    let force = mass * acceleration;
    assert_eq!(*force, 50);
    assert_eq!(*force.unit(), newton);
    let distance: Quantity<i32, Si> = Quantity::new(2, m());
    let energy = force * distance;
    assert_eq!(*energy, 100);
    assert_eq!(*energy.unit(), joule);
}

#[test]
fn conversion_round_trip_is_exact_when_nothing_is_cut_off() {
    let kilo: Si = m() * TenTo(3);
    let milli: Si = m() / TenTo(3);
    let a: Quantity<i64, Si> = Quantity::new(-42, kilo);
    let there = a.convert(milli);
    assert_eq!(*there, -42_000_000);
    let back = there.convert(kilo);
    assert_eq!(*back, -42);
    let b: Quantity<u32, Si> = Quantity::new(5000, m());
    assert_eq!(*b.convert(kilo).convert(m()), 5000);
}

#[test]
fn conversion_to_a_larger_unit_cuts_off() {
    let kilo: Si = m() * TenTo(3);
    let a: Quantity<i32, Si> = Quantity::new(1999, m());
    let b = a.convert(kilo);
    assert_eq!(*b, 1);
    assert_eq!(*b.convert(m()), 1000);
}

#[test]
fn aliases_name_the_combined_unit_type() {
    let area: Product<Si, Si> = m() * m();
    let speed: Quotient<Si, Si> = m() / s();
    let milli: Product<Si, TenTo> = m() * TenTo(-3);
    let centi: Quotient<Si, TenTo> = m() / TenTo(2);
    let q: Quantity<u8, Product<Si, Si>> = Quantity::new(9, area);
    assert_eq!(*q, 9);
    assert_eq!(speed, Descriptor::new(0, [-1, 1, 0, 0, 0, 0, 0, 0]));
    assert_eq!(milli.scale.0, -3);
    assert_eq!(centi.scale.0, -2);
}

#[test]
fn raw_value_can_be_read_and_replaced() {
    let mut q: Quantity<i32, Si> = Quantity::new(3, m());
    assert_eq!(*q, 3);
    *q = 5;
    assert_eq!(*q, 5);
    *q += 1;
    assert_eq!(*q, 6);
    assert_eq!(*q.unit(), m());
    assert_eq!(q.abs(), 6);
}

#[test]
fn quantity_from_a_pair() {
    let q: Quantity<u16, Si> = Quantity::from((7, kg()));
    assert_eq!(*q, 7);
    assert_eq!(*q.unit(), kg());
    let r: Quantity<u16, Si> = (8, s()).into();
    assert_eq!(*r, 8);
    assert_eq!(*r.unit(), s());
}

#[test]
fn clone_keeps_value_and_unit() {
    let q: Quantity<Vec<u8>, Si> = Quantity::new(vec![1, 2, 3], m());
    let r = q.clone();
    assert_eq!(*r, vec![1, 2, 3]);
    assert_eq!(*r.unit(), m());
    assert_eq!(*q, vec![1, 2, 3]);
    let c: Quantity<i32, Si> = Quantity::new(4, m());
    let d = c;
    assert_eq!(*c, *d);
}

#[test]
fn comparisons_go_by_the_raw_value() {
    let a: Quantity<i32, Si> = Quantity::new(3, m());
    let b: Quantity<i32, Si> = Quantity::new(5, m());
    let c: Quantity<i32, Si> = Quantity::new(3, m());
    assert!(a == c);
    assert!(a != b);
    assert!(a < b);
    assert!(b > a);
    assert!(a <= c);
    assert_eq!(a.partial_cmp(&b), Some(Ordering::Less));
    assert_eq!(b.partial_cmp(&a), Some(Ordering::Greater));
    assert_eq!(a.partial_cmp(&c), Some(Ordering::Equal));
    assert_eq!(a.cmp(&b), Ordering::Less);
    assert_eq!(b.cmp(&a), Ordering::Greater);
    assert_eq!(a.cmp(&c), Ordering::Equal);
}

#[test]
fn hash_is_that_of_the_raw_value() {
    let a: Quantity<i32, Si> = Quantity::new(3, m());
    let b: Quantity<i32, Si> = Quantity::new(3, s());
    let c: Quantity<i32, Si> = Quantity::new(4, m());
    assert_eq!(hash_of(&a), hash_of(&3i32));
    assert_eq!(hash_of(&a), hash_of(&b));
    assert_ne!(hash_of(&a), hash_of(&c));
}

#[test]
fn debug_shows_value_and_unit() {
    let q: Quantity<i32, Descriptor<1>> = Quantity::new(3, Descriptor::new(-3, [1]));
    let text = format!("{:?}", q);
    assert!(text.contains("Quantity"));
    assert!(text.contains("val: 3"));
    assert!(text.contains("Const(-3)"));
}

#[test]
fn any_unit_type_can_tag_a_quantity() {
    let a: Quantity<u32, Apples> = Quantity::new(4, Apples);
    let b: Quantity<u32, Apples> = Quantity::new(3, Apples);
    let sum = a + b;
    assert_eq!(*sum, 7);
    assert_eq!(*sum.unit(), Apples);
    let rest = a - b;
    assert_eq!(*rest, 1);
    assert!(b < a);
}

#[test]
fn arithmetic_on_other_raw_types() {
    let a: Quantity<i64, Si> = Quantity::new(-9_000_000_000, kg());
    let b: Quantity<i64, Si> = Quantity::new(1_000_000_000, kg());
    assert_eq!(*(a + b), -8_000_000_000);
    assert_eq!(*(a - b), -10_000_000_000);
    assert_eq!(*(a / b), -9);
    assert_eq!(*(a / b).unit(), unit());
    let c: Quantity<u8, Si> = Quantity::new(15, s());
    let d: Quantity<u8, Si> = Quantity::new(17, s());
    assert_eq!(*(c * d), 255);
    assert_eq!(*(c * d).unit(), s() * s());
    assert_eq!(*(d / c), 1);
}
