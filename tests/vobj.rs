use std::cmp::Ordering;

use vm::err::{Side, VMError};
use vm::vobj::{FloatOrder, FloatUnit, Vobj};

struct Ieee;

impl FloatUnit for Ieee {
    fn from_int(&self, v: i64) -> u64 {
        (v as f64).to_bits()
    }

    fn add(&self, a: u64, b: u64) -> u64 {
        (f64::from_bits(a) + f64::from_bits(b)).to_bits()
    }

    fn sub(&self, a: u64, b: u64) -> u64 {
        (f64::from_bits(a) - f64::from_bits(b)).to_bits()
    }

    fn mul(&self, a: u64, b: u64) -> u64 {
        (f64::from_bits(a) * f64::from_bits(b)).to_bits()
    }

    fn div(&self, a: u64, b: u64) -> u64 {
        (f64::from_bits(a) / f64::from_bits(b)).to_bits()
    }

    fn compare(&self, a: u64, b: u64) -> FloatOrder {
        match f64::from_bits(a).partial_cmp(&f64::from_bits(b)) {
            Some(Ordering::Less) => FloatOrder::Less,
            Some(Ordering::Equal) => FloatOrder::Equal,
            Some(Ordering::Greater) => FloatOrder::Greater,
            None => FloatOrder::Unordered,
        }
    }
}

fn double(x: f64) -> Vobj {
    Vobj::Double(x.to_bits())
}

#[test]
fn vobj_string() {
    let variable = Vobj::new_str("test_string");
    assert_eq!(variable, Vobj::Str("test_string".to_string()));
}

#[test]
fn vobj_double() {
    let variable = Vobj::new_double(4f64.to_bits());
    assert_eq!(variable, double(4f64));
}

#[test]
fn vobj_int() {
    let variable = Vobj::new_int(4i64);
    assert_eq!(variable, Vobj::Int(4i64));
}

#[test]
fn vobj_default() {
    assert_eq!(Vobj::Null, Vobj::default());
}

#[test]
fn add() {
    let value1 = double(0.3);
    let value2 = double(0.15);
    let result = Vobj::add(&value1, &value2, &Ieee).unwrap();
    let expected = double(0.3 + 0.15);
    assert_eq!(expected, result);
}

#[test]
fn sub() {
    let value1 = double(0.3);
    let value2 = double(0.15);
    let result = Vobj::sub(&value1, &value2, &Ieee).unwrap();
    let expected = double(0.3 - 0.15);
    assert_eq!(expected, result);
}

#[test]
fn mul() {
    let value1 = double(0.3);
    let value2 = Vobj::Int(10);
    let result = Vobj::mul(&value1, &value2, &Ieee).unwrap();
    let expected = double(3.0);
    assert_eq!(expected, result);
}

#[test]
fn div_float() {
    let value1 = double(1.0);
    let value2 = double(0.15);
    let result = Vobj::div(&value1, &value2, &Ieee).unwrap();
    let expected = double(1.0 / 0.15);
    assert_eq!(expected, result);
}

#[test]
fn div_int() {
    let value1 = Vobj::Int(10);
    let value2 = Vobj::Int(3);
    let result = Vobj::div(&value1, &value2, &Ieee).unwrap();
    let expected = Vobj::Int(10 / 3);
    assert_eq!(expected, result);
}

#[test]
fn div_byzero() {
    let value1 = double(10.0);
    let value2 = Vobj::Int(0);
    let result = Vobj::div(&value1, &value2, &Ieee);
    if let Err(VMError::DivisionByZeroErr) = result {
        assert!(true, "divisionbyzero error returned")
    } else {
        assert!(false, "no divisionbyzero error returned")
    }
}

#[test]
fn greater_than() {
    let value1 = double(10.0);
    let value2 = Vobj::Int(0);
    let result = Vobj::greater_than(&value1, &value2, &Ieee).unwrap();
    let expected = true;
    assert_eq!(expected, result);
}

#[test]
fn greater_eq() {
    let value1 = double(10.0);
    let value2 = Vobj::Int(0);
    let result = Vobj::greater_eq(&value1, &value2, &Ieee).unwrap();
    let expected = true;
    assert_eq!(expected, result);
}

#[test]
fn less_than() {
    let value1 = Vobj::Int(10);
    let value2 = Vobj::Int(30);
    let result = Vobj::less_than(&value1, &value2, &Ieee).unwrap();
    let expected = true;
    assert_eq!(expected, result);
}

#[test]
fn less_eq() {
    let value1 = Vobj::Int(100);
    let value2 = Vobj::Int(999);
    let result = Vobj::less_eq(&value1, &value2, &Ieee).unwrap();
    let expected = true;
    assert_eq!(expected, result);
}

#[test]
fn promotion_keeps_integers_and_widens_to_double() {
    assert_eq!(Vobj::add(&Vobj::Int(2), &Vobj::Int(3), &Ieee), Ok(Vobj::Int(5)));
    assert_eq!(Vobj::sub(&Vobj::Int(2), &Vobj::Int(3), &Ieee), Ok(Vobj::Int(-1)));
    assert_eq!(Vobj::mul(&Vobj::Int(4), &Vobj::Int(3), &Ieee), Ok(Vobj::Int(12)));
    assert_eq!(Vobj::add(&Vobj::Int(2), &double(0.5), &Ieee), Ok(double(2.5)));
    assert_eq!(Vobj::sub(&double(2.5), &Vobj::Int(2), &Ieee), Ok(double(0.5)));
    assert_eq!(Vobj::mul(&double(1.5), &double(2.0), &Ieee), Ok(double(3.0)));
}

#[test]
fn integer_arithmetic_wraps_and_truncates() {
    assert_eq!(Vobj::add(&Vobj::Int(i64::MAX), &Vobj::Int(1), &Ieee), Ok(Vobj::Int(i64::MIN)));
    assert_eq!(Vobj::sub(&Vobj::Int(i64::MIN), &Vobj::Int(1), &Ieee), Ok(Vobj::Int(i64::MAX)));
    assert_eq!(Vobj::mul(&Vobj::Int(i64::MAX), &Vobj::Int(2), &Ieee), Ok(Vobj::Int(-2)));
    assert_eq!(Vobj::div(&Vobj::Int(-7), &Vobj::Int(2), &Ieee), Ok(Vobj::Int(-3)));
    assert_eq!(Vobj::div(&Vobj::Int(i64::MIN), &Vobj::Int(-1), &Ieee), Ok(Vobj::Int(i64::MIN)));
}

#[test]
fn division_by_zero_of_either_kind() {
    for x in [Vobj::Int(7), double(7.5)] {
        assert_eq!(Vobj::div(&x, &Vobj::Int(0), &Ieee), Err(VMError::DivisionByZeroErr));
        assert_eq!(Vobj::div(&x, &double(0.0), &Ieee), Err(VMError::DivisionByZeroErr));
        assert_eq!(Vobj::div(&x, &double(-0.0), &Ieee), Err(VMError::DivisionByZeroErr));
    }
}

#[test]
fn text_and_null_operands_are_type_errors() {
    let bad = [Vobj::Str("x".to_string()), Vobj::Null];
    for b in bad.iter() {
        for (x, y, side) in [
            (b, &Vobj::Int(1), Side::Left),
            (&Vobj::Int(1), b, Side::Right),
            (b, &double(1.0), Side::Left),
            (b, b, Side::Left),
        ] {
            let e = Err(VMError::IncorrectArgumentErr(side));
            assert_eq!(Vobj::add(x, y, &Ieee), e);
            assert_eq!(Vobj::sub(x, y, &Ieee), e);
            assert_eq!(Vobj::mul(x, y, &Ieee), e);
            assert_eq!(Vobj::div(x, y, &Ieee), e);
            let e = Err(VMError::IncorrectArgumentErr(side));
            assert_eq!(Vobj::greater_than(x, y, &Ieee), e);
            assert_eq!(Vobj::greater_eq(x, y, &Ieee), e);
            assert_eq!(Vobj::less_than(x, y, &Ieee), e);
            assert_eq!(Vobj::less_eq(x, y, &Ieee), e);
        }
    }
    // a text operand is refused even against a zero divisor
    assert_eq!(
        Vobj::div(&Vobj::Str("x".to_string()), &Vobj::Int(0), &Ieee),
        Err(VMError::IncorrectArgumentErr(Side::Left))
    );
}

#[test]
fn orderings_on_mixed_and_nan_operands() {
    assert_eq!(Vobj::less_than(&Vobj::Int(1), &double(1.5), &Ieee), Ok(true));
    assert_eq!(Vobj::greater_eq(&Vobj::Int(2), &Vobj::Int(2), &Ieee), Ok(true));
    assert_eq!(Vobj::greater_than(&Vobj::Int(2), &Vobj::Int(2), &Ieee), Ok(false));
    assert_eq!(Vobj::less_eq(&double(f64::NAN), &double(1.0), &Ieee), Ok(false));
    assert_eq!(Vobj::greater_eq(&double(f64::NAN), &double(1.0), &Ieee), Ok(false));
}

#[test]
fn structural_equality() {
    let s = |x: &str| Vobj::Str(x.to_string());
    assert!(Vobj::equals(&s("a"), &s("a"), &Ieee));
    assert!(!Vobj::equals(&s("a"), &s("b"), &Ieee));
    assert!(Vobj::equals(&Vobj::Null, &Vobj::Null, &Ieee));
    assert!(Vobj::equals(&double(0.0), &double(-0.0), &Ieee));
    assert!(!Vobj::equals(&double(f64::NAN), &double(f64::NAN), &Ieee));
    assert!(!Vobj::equals(&Vobj::Int(3), &double(3.0), &Ieee));
    assert!(Vobj::equals(&Vobj::Int(3), &Vobj::Int(3), &Ieee));
}

#[test]
fn error_messages() {
    assert_eq!(
        VMError::IncorrectArgumentErr(Side::Left).message(),
        "Expected numerical type (left operand)"
    );
    assert_eq!(
        VMError::IncorrectArgumentErr(Side::Right).message(),
        "Expected numerical type (right operand)"
    );
    assert_eq!(VMError::DivisionByZeroErr.message(), "division by zero");
    assert_eq!(VMError::BranchOutOfBoundsErr.message(), "invalid instruction index: out of bound");
}

#[test]
fn conversions_into_values() {
    assert_eq!(Vobj::from(-4i64), Vobj::Int(-4));
    assert_eq!(Vobj::from("abc"), Vobj::Str("abc".to_string()));
}
