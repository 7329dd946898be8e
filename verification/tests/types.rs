use columnar_core::error::DBError;
use columnar_core::types::Blob;
use columnar_core::types::Boolean;
use columnar_core::types::Float32;
use columnar_core::types::Float64;
use columnar_core::types::Int32;
use columnar_core::types::Int64;
use columnar_core::types::NotNullable;
use columnar_core::types::NullInfo;
use columnar_core::types::Nullable;
use columnar_core::types::Text;
use columnar_core::types::Type;
use columnar_core::types::TypeInfo;
use columnar_core::types::UInt32;
use columnar_core::types::UInt64;

const CANONICAL: [&str; 9] = [
    "UINT32", "UINT64", "INT32", "INT64", "FLOAT32", "FLOAT64", "BOOLEAN", "TEXT", "BLOB",
];

#[test]
fn parse_round_trips_every_canonical_name() {
    for s in CANONICAL {
        let t = Type::from_str(s).unwrap();
        assert_eq!(t.name(), s);
    }
}

#[test]
fn parse_yields_the_matching_variant() {
    assert_eq!(Type::from_str("UINT32").unwrap(), Type::UINT32);
    assert_eq!(Type::from_str("UINT64").unwrap(), Type::UINT64);
    assert_eq!(Type::from_str("INT32").unwrap(), Type::INT32);
    assert_eq!(Type::from_str("INT64").unwrap(), Type::INT64);
    assert_eq!(Type::from_str("FLOAT32").unwrap(), Type::FLOAT32);
    assert_eq!(Type::from_str("FLOAT64").unwrap(), Type::FLOAT64);
    assert_eq!(Type::from_str("BOOLEAN").unwrap(), Type::BOOLEAN);
    assert_eq!(Type::from_str("TEXT").unwrap(), Type::TEXT);
    assert_eq!(Type::from_str("BLOB").unwrap(), Type::BLOB);
}

#[test]
fn parse_rejects_anything_not_canonical() {
    let bad = ["uint32", "FOO", "", "TEXT ", " TEXT", "Uint32", "UINT3", "UINT322", "blob"];
    for s in bad {
        match Type::from_str(s) {
            Err(DBError::UnknownType(m)) => assert_eq!(m, s),
            other => panic!("expected UnknownType for {:?}, got {:?}", s, other),
        }
    }
}

#[test]
fn size_table_gives_fixed_widths() {
    assert_eq!(Type::UINT32.size_of(), 4);
    assert_eq!(Type::UINT64.size_of(), 8);
    assert_eq!(Type::INT32.size_of(), 4);
    assert_eq!(Type::INT64.size_of(), 8);
    assert_eq!(Type::FLOAT32.size_of(), 4);
    assert_eq!(Type::FLOAT64.size_of(), 8);
    assert_eq!(Type::BOOLEAN.size_of(), 1);
    assert_eq!(Type::TEXT.size_of(), 16);
    assert_eq!(Type::BLOB.size_of(), 16);
}

#[test]
fn varlen_only_for_text_and_blob() {
    assert!(Type::TEXT.varlen());
    assert!(Type::BLOB.varlen());
    assert!(!Type::UINT32.varlen());
    assert!(!Type::UINT64.varlen());
    assert!(!Type::INT32.varlen());
    assert!(!Type::INT64.varlen());
    assert!(!Type::FLOAT32.varlen());
    assert!(!Type::FLOAT64.varlen());
    assert!(!Type::BOOLEAN.varlen());
}

#[test]
fn deep_copy_only_for_varlen_types() {
    assert!(Type::TEXT.deep_copy());
    assert!(Type::BLOB.deep_copy());
    assert!(!Type::UINT32.deep_copy());
    assert!(!Type::FLOAT64.deep_copy());
    assert!(!Type::BOOLEAN.deep_copy());
}

#[test]
fn markers_agree_with_the_runtime_table() {
    assert_eq!(UInt32::symbolic(), Type::UINT32);
    assert_eq!(UInt64::symbolic(), Type::UINT64);
    assert_eq!(Int32::symbolic(), Type::INT32);
    assert_eq!(Int64::symbolic(), Type::INT64);
    assert_eq!(Float32::symbolic(), Type::FLOAT32);
    assert_eq!(Float64::symbolic(), Type::FLOAT64);
    assert_eq!(Boolean::symbolic(), Type::BOOLEAN);
    assert_eq!(Text::symbolic(), Type::TEXT);
    assert_eq!(Blob::symbolic(), Type::BLOB);
    assert_eq!(UInt32::size(), 4);
    assert_eq!(UInt64::size(), 8);
    assert_eq!(Boolean::size(), 1);
    assert_eq!(Text::size(), 16);
    assert_eq!(Blob::size(), 16);
    assert!(Text::varlen());
    assert!(Blob::varlen());
    assert!(!Int64::varlen());
    assert!(Text::deep_copy());
    assert!(!UInt32::deep_copy());
    assert!(!Boolean::deep_copy());
}

#[test]
fn nullability_markers_carry_their_flag() {
    assert!(Nullable::nullable());
    assert!(!NotNullable::nullable());
}
