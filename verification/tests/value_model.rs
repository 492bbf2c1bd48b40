use std::cmp::Ordering;
use teon::FromTeon;
use teon::TeonDate;
use teon::TeonDateTime;
use teon::TeonDecimal;
use teon::ObjectIdValue;
use teon::Value;

#[test]
fn value_ref_into_vec_str() {
    let value = Value::Array(vec![Value::String("1".to_owned()), Value::String("2".to_owned())]);
    let value_ref = &value;
    let vec_str: Vec<&str> = teon::try_into_vec_str(value_ref).unwrap();
    assert_eq!(vec_str, vec!["1", "2"]);
}

#[test]
fn value_ref_into_vec_string() {
    let value = Value::Array(vec![Value::String("1".to_owned()), Value::String("2".to_owned())]);
    let value_ref = &value;
    let vec_str: Vec<String> = FromTeon::from_teon(value_ref).unwrap();
    assert_eq!(vec_str, vec!["1".to_owned(), "2".to_owned()]);
}

#[test]
fn value_ref_into_vec_i32() {
    let value = Value::Array(vec![Value::Int(1), Value::Int(2)]);
    let value_ref = &value;
    let vec_str: Vec<i32> = FromTeon::from_teon(value_ref).unwrap();
    assert_eq!(vec_str, vec![1, 2]);
}

#[test]
fn value_into_vec_i32() {
    let value = Value::Array(vec![Value::Int(1), Value::Int(2)]);
    let vec_str: Vec<i32> = FromTeon::from_teon(&value).unwrap();
    assert_eq!(vec_str, vec![1, 2]);
}

#[test]
fn scalar_round_trips() {
    assert_eq!(bool::from_teon(&Value::from(true)).unwrap(), true);
    assert_eq!(i32::from_teon(&Value::from(12)).unwrap(), 12);
    assert_eq!(i64::from_teon(&Value::from(12i64)).unwrap(), 12i64);
    assert_eq!(String::from_teon(&Value::from("hello".to_owned())).unwrap(), "hello");
    let d = TeonDecimal::new("2.50").unwrap();
    assert_eq!(TeonDecimal::from_teon(&Value::from(d)).unwrap().as_str(), "2.5");
    let date = TeonDate::new(2024, 1, 5).unwrap();
    assert_eq!(TeonDate::from_teon(&Value::from(date)).unwrap(), date);
    let dt = TeonDateTime::new(date, 12, 30, 45, 123).unwrap();
    assert_eq!(TeonDateTime::from_teon(&Value::from(dt)).unwrap(), dt);
    let oid = ObjectIdValue::new([1, 2, 3, 4, 5, 6, 7, 8, 9, 10, 11, 12]);
    assert_eq!(ObjectIdValue::from_teon(&Value::from(oid)).unwrap().bytes, oid.bytes);
    assert_eq!(usize::from_teon(&Value::Int(7)).unwrap(), 7usize);
}

#[test]
fn option_round_trips() {
    let some: Option<i32> = FromTeon::from_teon(&Value::Int(3)).unwrap();
    assert_eq!(some, Some(3));
    let none: Option<i32> = FromTeon::from_teon(&Value::Null).unwrap();
    assert_eq!(none, None);
    let err = <Option<i32> as FromTeon>::from_teon(&Value::Bool(true)).unwrap_err();
    assert_eq!(err.message, "Cannot convert Bool into Option<i32>");
}

#[test]
fn option_wrapping() {
    assert!(teon::value_from_option::<i32>(None) == Value::Null);
    assert!(teon::value_from_option(Some(3)) == Value::Int(3));
    assert!(teon::value_from_option(Some("s".to_owned())) == Value::String("s".to_owned()));
}

#[test]
fn conversion_error_names_kinds() {
    let err = i32::from_teon(&Value::Bool(true)).unwrap_err();
    assert_eq!(err.message, "Cannot convert Bool into i32");
    let err = bool::from_teon(&Value::Null).unwrap_err();
    assert_eq!(err.message, "Cannot convert Null into bool");
    let err = teon::try_into_str(&Value::Int(1)).unwrap_err();
    assert_eq!(err.message, "Cannot convert Int into &str");
}

#[test]
fn numeric_promotion_add() {
    let r = Value::Int(2).add(&Value::Int(3)).unwrap();
    assert!(r == Value::Int(5));
    let err = Value::Int(2).add(&Value::Float((3.0f64).to_bits())).unwrap_err();
    assert_eq!(err.message, "cannot add Int with Float");
    let r = Value::Int64(2).add(&Value::Int(3)).unwrap();
    assert!(r == Value::Int64(5));
    let r = Value::String("ab".to_owned()).add(&Value::String("cd".to_owned())).unwrap();
    assert!(r == Value::String("abcd".to_owned()));
    let err = Value::String("ab".to_owned()).add(&Value::Int(1)).unwrap_err();
    assert_eq!(err.message, "cannot add String with Int");
}

#[test]
fn integer_arithmetic_is_checked() {
    let err = Value::Int(i32::MAX).add(&Value::Int(1)).unwrap_err();
    assert_eq!(err.message, "integer overflow");
    let err = Value::Int(1).div(&Value::Int(0)).unwrap_err();
    assert_eq!(err.message, "division by zero");
    let r = Value::Int(-7).div(&Value::Int(2)).unwrap();
    assert!(r == Value::Int(-3));
    let r = Value::Int(-7).rem(&Value::Int(2)).unwrap();
    assert!(r == Value::Int(-1));
    let r = Value::Int64(10).sub(&Value::Int(4)).unwrap();
    assert!(r == Value::Int64(6));
    let r = Value::Int(6).mul(&Value::Int(7)).unwrap();
    assert!(r == Value::Int(42));
}

#[test]
fn decimal_arithmetic_goes_through() {
    let a = Value::Decimal(TeonDecimal::new("1.5").unwrap());
    let b = Value::Decimal(TeonDecimal::new("2.5").unwrap());
    let sum = a.add(&b).unwrap();
    match &sum {
        Value::Decimal(d) => assert_eq!(d.as_str(), "4"),
        _ => panic!("expected a decimal"),
    }
    let q = a.div(&b).unwrap();
    match &q {
        Value::Decimal(d) => assert_eq!(d.as_str(), "0.6"),
        _ => panic!("expected a decimal"),
    }
    let zero = Value::Decimal(TeonDecimal::new("0").unwrap());
    let err = a.div(&zero).unwrap_err();
    assert_eq!(err.message, "division by zero");
    let neg = b.neg().unwrap();
    match &neg {
        Value::Decimal(d) => assert_eq!(d.as_str(), "-2.5"),
        _ => panic!("expected a decimal"),
    }
    let diff = b.sub(&a).unwrap();
    match &diff {
        Value::Decimal(d) => assert_eq!(d.as_str(), "1"),
        _ => panic!("expected a decimal"),
    }
    let prod = a.mul(&b).unwrap();
    match &prod {
        Value::Decimal(d) => assert_eq!(d.as_str(), "3.75"),
        _ => panic!("expected a decimal"),
    }
    let remainder = b.rem(&a).unwrap();
    match &remainder {
        Value::Decimal(d) => assert_eq!(d.as_str(), "1"),
        _ => panic!("expected a decimal"),
    }
    let rec = a.recip().unwrap();
    match &rec {
        Value::Decimal(d) => assert!(d.as_str().starts_with("0.6666")),
        _ => panic!("expected a decimal"),
    }
}

#[test]
fn cross_kind_equality() {
    assert!(Value::Int(5) == Value::Int64(5));
    assert!(Value::Float((5.0f64).to_bits()) == Value::Int(5));
    assert!(Value::Float32((5.0f32).to_bits()) == Value::Int64(5));
    assert!(Value::Decimal(TeonDecimal::new("5").unwrap()) != Value::Int(5));
    assert!(Value::Int(5) != Value::Int64(6));
    assert!(Value::Float(f64::NAN.to_bits()) != Value::Float(f64::NAN.to_bits()));
    assert!(Value::Float((-0.0f64).to_bits()) == Value::Float((0.0f64).to_bits()));
    assert!(Value::Float((2.5f64).to_bits()) == Value::Float32((2.5f32).to_bits()));
}

#[test]
fn structural_equality() {
    let a = Value::Array(vec![Value::Int(1), Value::String("x".to_owned())]);
    let b = Value::Array(vec![Value::Int(1), Value::String("x".to_owned())]);
    assert!(a == b);
    let d1 = Value::Dictionary(vec![
        ("a".to_owned(), Value::Int(1)),
        ("b".to_owned(), Value::Int(2)),
    ]);
    let d2 = Value::Dictionary(vec![
        ("b".to_owned(), Value::Int(2)),
        ("a".to_owned(), Value::Int(1)),
    ]);
    assert!(d1 == d2);
    let d3 = Value::BTreeDictionary(vec![("a".to_owned(), Value::Int(1))]);
    assert!(d1 != d3);
    assert!(Value::Null == Value::Null);
    assert!(Value::Undetermined != Value::Undetermined);
}

#[test]
fn partial_ordering() {
    assert_eq!(Value::Int(2).partial_cmp(&Value::Int64(3)), Some(Ordering::Less));
    assert_eq!(
        Value::Float((2.5f64).to_bits()).partial_cmp(&Value::Int(2)),
        Some(Ordering::Greater)
    );
    assert_eq!(
        Value::String("a".to_owned()).partial_cmp(&Value::String("b".to_owned())),
        Some(Ordering::Less)
    );
    assert_eq!(Value::Null.partial_cmp(&Value::Int(1)), None);
    assert_eq!(
        Value::Float(f64::NAN.to_bits()).partial_cmp(&Value::Float((1.0f64).to_bits())),
        None
    );
    let t1 = Value::Tuple(vec![Value::Int(1), Value::Int(2)]);
    let t2 = Value::Tuple(vec![Value::Int(1), Value::Int(3)]);
    assert_eq!(t1.partial_cmp(&t2), Some(Ordering::Less));
}

#[test]
fn narrowing_conversions() {
    assert_eq!(Value::Int64(7).to_int(), Some(7));
    assert_eq!(Value::Int64(i64::MAX).to_int(), None);
    assert_eq!(Value::Int64(i32::MAX as i64).to_int(), Some(i32::MAX));
    assert_eq!(Value::Int(7).to_int64(), Some(7i64));
    assert_eq!(Value::Int(-1).to_usize(), None);
    assert_eq!(Value::Int64(9).to_usize(), Some(9usize));
    assert_eq!(Value::Bool(true).to_int(), None);
}

#[test]
fn float_conversions_are_exact() {
    assert_eq!(Value::Int(5).to_float(), Some((5.0f64).to_bits()));
    assert_eq!(Value::Float32((1.5f32).to_bits()).to_float(), Some((1.5f64).to_bits()));
    assert_eq!(Value::Int64((1i64) << 53).to_float(), Some(((1i64 << 53) as f64).to_bits()));
    assert_eq!(Value::Int64((1i64 << 53) + 1).to_float(), None);
    assert_eq!(Value::Float((0.5f64).to_bits()).to_float32(), Some((0.5f32).to_bits()));
    assert_eq!(Value::Float((0.1f64).to_bits()).to_float32(), None);
    assert_eq!(Value::Int(1 << 24).to_float32(), Some(((1 << 24) as f32).to_bits()));
    assert_eq!(Value::Int((1 << 24) + 1).to_float32(), None);
}

#[test]
fn normal_not_truthiness() {
    assert!(Value::Null.normal_not() == Value::Bool(true));
    assert!(Value::Int(0).normal_not() == Value::Bool(true));
    assert!(Value::Int(3).normal_not() == Value::Bool(false));
    assert!(Value::Float((0.0f64).to_bits()).normal_not() == Value::Bool(true));
    assert!(Value::Float((-0.0f64).to_bits()).normal_not() == Value::Bool(true));
    assert!(Value::String(String::new()).normal_not() == Value::Bool(true));
    assert!(Value::Array(vec![]).normal_not() == Value::Bool(true));
    assert!(Value::Array(vec![Value::Null]).normal_not() == Value::Bool(false));
    assert!(Value::Bool(true).normal_not() == Value::Bool(false));
}

#[test]
fn negation_and_bit_negation() {
    assert!(Value::Int(4).neg().unwrap() == Value::Int(-4));
    assert!(Value::Int(i32::MIN).neg().is_err());
    let f = Value::Float32((2.5f32).to_bits()).neg().unwrap();
    assert!(f == Value::Float32((-2.5f32).to_bits()));
    assert!(Value::Int(0).not().unwrap() == Value::Int(-1));
    assert!(Value::Int64(1).not().unwrap() == Value::Int64(-2));
    let err = Value::Bool(true).not().unwrap_err();
    assert_eq!(err.message, "cannot bitneg Bool");
}

#[test]
fn take_leaves_null() {
    let mut v = Value::Int(9);
    let taken = v.take();
    assert!(taken == Value::Int(9));
    assert!(v == Value::Null);
}

#[test]
fn type_hints_are_stable() {
    assert_eq!(Value::Int(1).type_hint(), "Int");
    assert_eq!(Value::Null.type_hint(), "Null");
    assert_eq!(Value::Float32(0).type_hint(), "Float32");
    assert_eq!(Value::Tuple(vec![]).type_hint(), "Tuple");
    assert_eq!(Value::Reference(vec![1, 2]).type_hint(), "Reference");
}

#[test]
fn calendar_validity() {
    assert!(TeonDate::new(2023, 2, 29).is_none());
    assert!(TeonDate::new(2024, 2, 29).is_some());
    assert!(TeonDate::new(2024, 13, 1).is_none());
    assert!(TeonDate::new(2024, 4, 31).is_none());
    assert!(TeonDate::new(10000, 1, 1).is_none());
    let date = TeonDate::new(2024, 2, 29).unwrap();
    assert!(TeonDateTime::new(date, 24, 0, 0, 0).is_none());
    assert!(TeonDateTime::new(date, 23, 59, 59, 999).is_some());
}

#[test]
fn temporal_ordering() {
    let early = Value::Date(TeonDate::new(2023, 12, 31).unwrap());
    let late = Value::Date(TeonDate::new(2024, 1, 1).unwrap());
    assert_eq!(early.partial_cmp(&late), Some(Ordering::Less));
    assert!(early != late);
    let d = TeonDate::new(2024, 1, 1).unwrap();
    let t1 = Value::DateTime(TeonDateTime::new(d, 10, 0, 0, 0).unwrap());
    let t2 = Value::DateTime(TeonDateTime::new(d, 10, 0, 0, 1).unwrap());
    assert_eq!(t1.partial_cmp(&t2), Some(Ordering::Less));
    assert_eq!(t1.partial_cmp(&t1), Some(Ordering::Equal));
}

#[test]
fn decimal_ordering() {
    let a = Value::Decimal(TeonDecimal::new("1.5").unwrap());
    let b = Value::Decimal(TeonDecimal::new("2").unwrap());
    assert_eq!(a.partial_cmp(&b), Some(Ordering::Less));
    let same = Value::Decimal(TeonDecimal::new("1.50").unwrap());
    assert!(a == same);
    let oid_small = Value::ObjectId(ObjectIdValue::new([0; 12]));
    let oid_large = Value::ObjectId(ObjectIdValue::new([1; 12]));
    assert_eq!(oid_small.partial_cmp(&oid_large), Some(Ordering::Less));
}
