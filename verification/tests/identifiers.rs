use yoloeats_core::ids::{source_point_id, DocumentId};

#[test]
fn document_id_is_24_hex_digits() {
    assert!(DocumentId::parse_str("53e37d08776f724e42000000").is_some());
    assert!(DocumentId::parse_str("53e37d08776f724e4200000").is_none());
    assert!(DocumentId::parse_str("53e37d08776f724e420000000").is_none());
    assert!(DocumentId::parse_str("53e37d08776f724e4200000g").is_none());
    assert!(DocumentId::parse_str("").is_none());
    assert!(DocumentId::parse_str("53e37d08776f724e42é0000").is_none());
}

#[test]
fn document_id_is_kept_in_lower_case() {
    let id = DocumentId::parse_str("53E37D08776F724E42ABCDEF").unwrap();
    assert_eq!(id.to_hex(), "53e37d08776f724e42abcdef");
    assert_eq!(id.clone().to_hex(), "53e37d08776f724e42abcdef");
}

#[test]
fn point_id_is_derived_by_name() {
    assert_eq!(source_point_id("rust-lang.org"), "c66bbb60-d62e-5f17-a399-3a0bd237c503");
    assert_eq!(source_point_id("example.org"), "aad03681-8b63-5304-89e0-8ca8f49461b5");
}

#[test]
fn point_id_is_the_same_for_the_same_product() {
    let first = source_point_id("53e37d08776f724e42000000");
    let second = source_point_id("53e37d08776f724e42000000");
    assert_eq!(first, second);
    assert_ne!(first, source_point_id("53e37d08776f724e42000001"));
    assert_eq!(first.len(), 36);
}
