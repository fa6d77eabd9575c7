use length::{Length, ScaleFactor};
use num::Zero;

#[derive(Debug)]
enum Inch {}
#[derive(Debug)]
enum Mm {}

#[test]
fn test_length() {
    let mm_per_inch: ScaleFactor<Inch, Mm, f32> = ScaleFactor::new(25.4);

    let one_foot: Length<Inch, f32> = Length::new(12.0);
    let two_feet = one_foot + one_foot;
    let zero_feet = one_foot - one_foot;

    assert_eq!(one_foot.get(), 12.0);
    assert_eq!(two_feet.get(), 24.0);
    assert_eq!(zero_feet.get(), 0.0);

    assert!(one_foot == one_foot);
    assert!(two_feet != one_foot);

    assert!(zero_feet < one_foot);
    assert!(zero_feet <= one_foot);
    assert!(two_feet > one_foot);
    assert!(two_feet >= one_foot);

    assert!(two_feet <= two_feet);
    assert!(two_feet >= two_feet);
    assert!(!(two_feet > two_feet));
    assert!(!(two_feet < two_feet));

    let one_foot_in_mm: Length<Mm, f32> = one_foot * mm_per_inch;

    assert_eq!(one_foot_in_mm, Length::new(304.8));

    let back_to_inches: Length<Inch, f32> = one_foot_in_mm / mm_per_inch;
    assert_eq!(one_foot, back_to_inches);

    let int_foot: Length<Inch, isize> = one_foot.cast().unwrap();
    assert_eq!(int_foot.get(), 12);

    let negative_one_foot = -one_foot;
    assert_eq!(negative_one_foot.get(), -12.0);

    let negative_two_feet = -two_feet;
    assert_eq!(negative_two_feet.get(), -24.0);

    let zero_feet: Length<Inch, f32> = Length::new(0.0);
    let negative_zero_feet = -zero_feet;
    assert_eq!(negative_zero_feet.get(), 0.0);
}

#[test]
fn new_then_get_returns_the_payload() {
    let a: Length<Inch, i64> = Length::new(-7);
    assert_eq!(a.get(), -7);
    assert_eq!(a.0, -7);
    let b: Length<Mm, u8> = Length::new(255);
    assert_eq!(b.get(), 255);
    let nan: Length<Inch, f64> = Length::new(f64::NAN);
    assert!(nan.get().is_nan());
    let inf: Length<Inch, f64> = Length::new(f64::INFINITY);
    assert_eq!(inf.get(), f64::INFINITY);
}

#[test]
fn unit_takes_no_space() {
    assert_eq!(std::mem::size_of::<Length<Inch, f32>>(), std::mem::size_of::<f32>());
    assert_eq!(std::mem::size_of::<Length<Mm, u64>>(), std::mem::size_of::<u64>());
    assert_eq!(
        std::mem::size_of::<ScaleFactor<Inch, Mm, i16>>(),
        std::mem::size_of::<i16>()
    );
}

#[test]
fn clone_and_copy_keep_the_payload() {
    let a: Length<Inch, i32> = Length::new(41);
    let b = a.clone();
    let c = a;
    assert_eq!(a, b);
    assert_eq!(a, c);
    assert_eq!(b.get(), 41);
}

#[test]
fn zero_is_the_additive_identity() {
    let z: Length<Inch, i64> = Length::zero();
    assert_eq!(z.get(), 0);
    let q: Length<Inch, i64> = Length::new(-123);
    assert_eq!(q + z, q);
    assert_eq!(z + q, q);
    let zf: Length<Mm, f32> = Length::zero();
    assert_eq!(zf.get(), 0.0);
    let qf: Length<Mm, f32> = Length::new(2.5);
    assert_eq!(qf + zf, qf);
    assert_eq!(zf + qf, qf);
}

#[test]
fn is_zero_tells_zero_from_the_rest() {
    let z: Length<Inch, u32> = Length::zero();
    assert!(z.is_zero());
    let five: Length<Inch, u32> = Length::new(5);
    assert!(!five.is_zero());
    let minus: Length<Inch, i8> = Length::new(-1);
    assert!(!minus.is_zero());
    let zf: Length<Inch, f64> = Length::new(0.0);
    assert!(zf.is_zero());
}

#[test]
fn add_then_subtract_gives_the_first_operand() {
    let a: Length<Inch, i64> = Length::new(1_000_000_007);
    let b: Length<Inch, i64> = Length::new(-998_244_353);
    assert_eq!((a + b).get(), 1_755_654);
    assert_eq!((a + b) - b, a);
    let c: Length<Mm, u64> = Length::new(7);
    let d: Length<Mm, u64> = Length::new(35);
    assert_eq!((c + d).get(), 42);
    assert_eq!((c + d) - d, c);
    assert_eq!((d - c).get(), 28);
}

#[test]
fn negating_twice_gives_the_operand() {
    let q: Length<Inch, i32> = Length::new(17);
    assert_eq!((-q).get(), -17);
    assert_eq!(-(-q), q);
    let m: Length<Inch, i64> = Length::new(i64::MAX);
    assert_eq!((-m).get(), -i64::MAX);
    assert_eq!(-(-m), m);
    let f: Length<Inch, f64> = Length::new(-2.25);
    assert_eq!((-f).get(), 2.25);
    assert_eq!(-(-f), f);
}

#[test]
fn negative_zero_equals_zero() {
    let zero: Length<Inch, f32> = Length::new(0.0);
    let negative_zero = -zero;
    assert_eq!(negative_zero, Length::new(0.0));
    assert!(negative_zero.get().is_sign_negative());
}

#[test]
fn scaling_changes_the_unit_and_multiplies_the_payload() {
    let per: ScaleFactor<Inch, Mm, i64> = ScaleFactor::new(-25);
    assert_eq!(per.get(), -25);
    let q: Length<Inch, i64> = Length::new(12);
    let scaled: Length<Mm, i64> = q * per;
    assert_eq!(scaled.get(), -300);
    let back: Length<Inch, i64> = scaled / per;
    assert_eq!(back, q);
    let neg: Length<Inch, i64> = Length::new(-4);
    assert_eq!((neg * per).get(), 100);
    assert_eq!((neg * per) / per, neg);
}

#[test]
fn integer_division_by_scale_truncates() {
    let three: ScaleFactor<Inch, Mm, i32> = ScaleFactor::new(3);
    let q: Length<Mm, i32> = Length::new(-7);
    let r: Length<Inch, i32> = q / three;
    assert_eq!(r.get(), -2);
    let p: Length<Mm, i32> = Length::new(7);
    assert_eq!((p / three).get(), 2);
}

#[test]
fn float_division_by_zero_scale_is_infinite() {
    let none: ScaleFactor<Inch, Mm, f64> = ScaleFactor::new(0.0);
    let q: Length<Mm, f64> = Length::new(1.0);
    let r: Length<Inch, f64> = q / none;
    assert_eq!(r.get(), f64::INFINITY);
}

#[test]
fn millimetres_per_inch() {
    let mm_per_inch: ScaleFactor<Inch, Mm, f32> = ScaleFactor::new(25.4);
    let one_foot: Length<Inch, f32> = Length::new(12.0);
    let in_mm: Length<Mm, f32> = one_foot * mm_per_inch;
    assert_eq!(in_mm, Length::new(304.8));
    let back: Length<Inch, f32> = in_mm / mm_per_inch;
    assert_eq!(back, Length::new(12.0));
}

#[test]
fn exactly_one_of_less_equal_greater() {
    let a: Length<Inch, i64> = Length::new(-3);
    let b: Length<Inch, i64> = Length::new(5);
    assert!(a < b && !(a == b) && !(a > b));
    assert!(!(b < a) && !(b == a) && b > a);
    assert!(!(a < a) && a == a && !(a > a));
    assert_eq!(a.partial_cmp(&b), Some(std::cmp::Ordering::Less));
    assert_eq!(b.partial_cmp(&a), Some(std::cmp::Ordering::Greater));
    assert_eq!(a.partial_cmp(&a), Some(std::cmp::Ordering::Equal));
}

#[test]
fn incomparable_payloads_are_neither_less_equal_nor_greater() {
    let nan: Length<Inch, f64> = Length::new(f64::NAN);
    let one: Length<Inch, f64> = Length::new(1.0);
    assert!(!(nan < one) && !(nan == one) && !(nan > one));
    assert!(!(one < nan) && !(one == nan) && !(one > nan));
    assert!(!(nan == nan));
    assert!(nan != one);
    assert!(!(nan <= one) && !(nan >= one));
    assert_eq!(nan.partial_cmp(&one), None);
}

#[test]
fn cast_keeps_a_representable_value() {
    let a: Length<Inch, i64> = Length::new(200);
    let b: Option<Length<Inch, u8>> = a.cast();
    assert_eq!(b.unwrap().get(), 200u8);
    let c: Length<Inch, u8> = Length::new(7);
    let d: Option<Length<Inch, f64>> = c.cast();
    assert_eq!(d.unwrap().get(), 7.0);
    let e: Length<Inch, f32> = Length::new(12.0);
    let f: Option<Length<Inch, i32>> = e.cast();
    assert_eq!(f, Some(Length::new(12)));
    let g: Length<Inch, i64> = Length::new(i64::MIN);
    let h: Option<Length<Inch, i64>> = g.cast();
    assert_eq!(h.unwrap().get(), i64::MIN);
}

#[test]
fn cast_refuses_what_the_target_cannot_hold() {
    let a: Length<Inch, i64> = Length::new(256);
    let b: Option<Length<Inch, u8>> = a.cast();
    assert!(b.is_none());
    let c: Length<Inch, i32> = Length::new(-1);
    let d: Option<Length<Inch, u64>> = c.cast();
    assert!(d.is_none());
    let e: Length<Inch, f64> = Length::new(1.0e20);
    let f: Option<Length<Inch, i32>> = e.cast();
    assert!(f.is_none());
    let g: Length<Inch, f32> = Length::new(f32::NAN);
    let h: Option<Length<Inch, i64>> = g.cast();
    assert!(h.is_none());
}

#[test]
fn from_cast_wraps_the_payload_or_nothing() {
    let some: Option<Length<Mm, i16>> = Length::from_cast(Some(9));
    assert_eq!(some, Some(Length::new(9)));
    let none: Option<Length<Mm, i16>> = Length::from_cast(None);
    assert_eq!(none, None);
}

#[test]
fn total_order_follows_the_payload() {
    let mut v: Vec<Length<u8, i32>> = vec![Length::new(3), Length::new(-1), Length::new(2)];
    v.sort();
    assert_eq!(v, vec![Length::new(-1), Length::new(2), Length::new(3)]);
    assert_eq!(Length::<u8, i32>::new(4).max(Length::new(9)), Length::new(9));
}
