use columnar_core::types::Type;
use columnar_core::value::NullType;
use columnar_core::value::RawData;
use columnar_core::value::Value;
use columnar_core::value::NULL_VALUE;

#[test]
fn value_from_each_input_yields_the_matching_variant() {
    assert!(matches!(Value::from(7u32), Value::UINT32(7)));
    assert!(matches!(Value::from(8u64), Value::UINT64(8)));
    assert!(matches!(Value::from(-9i32), Value::INT32(-9)));
    assert!(matches!(Value::from(-10i64), Value::INT64(-10)));
    assert!(matches!(Value::from(true), Value::BOOLEAN(true)));
    assert!(matches!(Value::from(NULL_VALUE), Value::NULL));
    assert!(matches!(Value::from(NullType), Value::NULL));
    assert!(matches!(Value::from("abc"), Value::TEXT("abc")));
    let bytes: &[u8] = &[1, 2, 3];
    assert!(matches!(Value::from(bytes), Value::BLOB(&[1, 2, 3])));
}

#[test]
fn value_variant_derives_back_to_one_type() {
    assert_eq!(Value::from(7u32).type_of(), Some(Type::UINT32));
    assert_eq!(Value::from(8u64).type_of(), Some(Type::UINT64));
    assert_eq!(Value::from(-9i32).type_of(), Some(Type::INT32));
    assert_eq!(Value::from(-10i64).type_of(), Some(Type::INT64));
    assert_eq!(Value::from(false).type_of(), Some(Type::BOOLEAN));
    assert_eq!(Value::from("x").type_of(), Some(Type::TEXT));
    let bytes: &[u8] = &[0xff];
    assert_eq!(Value::from(bytes).type_of(), Some(Type::BLOB));
    assert_eq!(Value::float32_from_bits(0).type_of(), Some(Type::FLOAT32));
    assert_eq!(Value::float64_from_bits(0).type_of(), Some(Type::FLOAT64));
    assert_eq!(Value::from(NullType).type_of(), None);
}

#[test]
fn float_values_carry_the_exact_bit_pattern() {
    let v = Value::float32_from_bits(1.5f32.to_bits());
    match v {
        Value::FLOAT32(bits) => assert_eq!(f32::from_bits(bits), 1.5f32),
        other => panic!("expected FLOAT32, got {:?}", other),
    }
    let w = Value::float64_from_bits((-2.25f64).to_bits());
    match w {
        Value::FLOAT64(bits) => assert_eq!(f64::from_bits(bits), -2.25f64),
        other => panic!("expected FLOAT64, got {:?}", other),
    }
}

#[test]
fn absent_raw_data_reads_as_absent() {
    let r = RawData::absent();
    assert!(r.is_absent());
    assert_eq!(r.size(), 0);
    assert!(r.as_bytes().is_none());
    assert!(r.as_text().is_none());
    assert_eq!(r.to_string(), "");
}

#[test]
fn empty_raw_data_is_distinct_from_absent() {
    let empty: &[u8] = &[];
    let r = RawData::from_bytes(empty);
    assert!(!r.is_absent());
    assert_eq!(r.size(), 0);
    assert_eq!(r.as_bytes(), Some(empty));
    assert_eq!(r.as_text(), Some(""));
    assert_eq!(r.to_string(), "");
}

#[test]
fn raw_data_reads_its_payload_back() {
    let payload = "hello".as_bytes();
    let r = RawData::from_bytes(payload);
    assert!(!r.is_absent());
    assert_eq!(r.size(), 5);
    assert_eq!(r.as_bytes(), Some(payload));
    assert_eq!(r.as_text(), Some("hello"));
    assert_eq!(r.to_string(), "hello");
}

#[test]
fn raw_data_carries_arbitrary_blob_bytes() {
    let payload: &[u8] = &[0, 159, 146, 150];
    let r = RawData::from_bytes(payload);
    assert_eq!(r.size(), 4);
    assert_eq!(r.as_bytes(), Some(payload));
}
