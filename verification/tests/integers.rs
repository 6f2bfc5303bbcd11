use rune::ast::{Float, Number, NumberSize, NumberValue};
use rune::integer::Integer;

fn integer(n: i128) -> Integer {
    Integer::from_bytes(n.to_le_bytes().to_vec())
}

#[test]
fn integers_are_converted_where_they_fit() {
    assert_eq!(integer(0).to_u64(), Some(0));
    assert_eq!(Integer::from_bytes(Vec::new()).to_i64(), Some(0));
    assert_eq!(integer(u64::MAX as i128).to_u64(), Some(u64::MAX));
    assert_eq!(integer(u64::MAX as i128 + 1).to_u64(), None);
    assert_eq!(integer(-1).to_u64(), None);
    assert_eq!(integer(-1).to_i64(), Some(-1));
    assert_eq!(integer(i64::MIN as i128).to_i64(), Some(i64::MIN));
    assert_eq!(integer(i64::MIN as i128 - 1).to_i64(), None);
    assert_eq!(integer(3).to_usize(), Some(3));
    assert_eq!(integer(-3).to_usize(), None);
}

#[test]
fn integers_are_negated() {
    assert_eq!(integer(5).neg().to_i64(), Some(-5));
    assert_eq!(integer(i64::MIN as i128).neg().to_u64(), Some(1 << 63));
    assert_eq!(integer(0).neg().to_i64(), Some(0));
}

#[test]
fn sizes_have_bounds() {
    assert!(NumberSize::S8.unsigned_in(255));
    assert!(!NumberSize::S8.unsigned_in(256));
    assert!(NumberSize::S8.signed_in(-128));
    assert!(!NumberSize::S8.signed_in(-129));
    assert!(NumberSize::S64.unsigned_in(u64::MAX));
}

#[test]
fn numbers_are_tuple_indexes() {
    let number = |value| Number { value, suffix: None };
    assert_eq!(number(NumberValue::Integer(integer(2))).as_tuple_index(), Some(2));
    assert_eq!(number(NumberValue::Integer(integer(-2))).as_tuple_index(), None);
    assert_eq!(number(NumberValue::Float(Float { bits: 0 })).as_tuple_index(), None);
    assert_eq!(Float { bits: 1.5f64.to_bits() }.neg().bits, (-1.5f64).to_bits());
}
