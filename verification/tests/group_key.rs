use nacos_client::common::GroupKey;
use nacos_client::error::ErrorKind;
use std::collections::HashMap;

#[test]
fn test_group_key() {
    let g1 = GroupKey::new("003", "pay", "dev").unwrap();
    let g2 = GroupKey::new("002", "pay2", "dev").unwrap();
    println!("{}", g1.to_string());
    println!("{:?}", g1);
    let mut m = HashMap::new();
    m.insert(g1, "hello groupkey1");
    m.insert(g2, "hello 22222");
    println!("{:?}", m);
    assert_eq!(m.len(), 2);
}

#[test]
fn group_key_formats_with_and_without_tenant() {
    let with = GroupKey::new("003", "pay", "dev").unwrap();
    assert_eq!(with.to_string(), "003+pay+dev");
    let without = GroupKey::new_without_tenant("003", "pay").unwrap();
    assert_eq!(without.to_string(), "003+pay");
}

#[test]
fn group_key_round_trips_through_its_text() {
    let with = GroupKey::new("003", "pay", "dev").unwrap();
    assert_eq!(GroupKey::parse(&with.to_string()).unwrap(), with);
    let without = GroupKey::new_without_tenant("003", "pay").unwrap();
    assert_eq!(GroupKey::parse(&without.to_string()).unwrap(), without);
    assert_eq!(GroupKey::try_from(String::from("003+pay")).unwrap(), without);
}

#[test]
fn group_key_parse_ignores_parts_after_the_third() {
    let key = GroupKey::parse("a+b+c+d").unwrap();
    assert_eq!(key, GroupKey::new("a", "b", "c").unwrap());
}

#[test]
fn group_key_parse_needs_a_group() {
    let err = GroupKey::parse("only").unwrap_err();
    assert_eq!(err.kind, ErrorKind::Parse);
    assert!(GroupKey::parse("").is_err());
}

#[test]
fn group_key_rejects_blank_values() {
    let err = GroupKey::new_without_tenant(" ", "pay").unwrap_err();
    assert_eq!(err.kind, ErrorKind::InvalidArgument);
    assert_eq!(err.message, "invalid value data_id, please check");
    let err = GroupKey::new_without_tenant("003", "\t").unwrap_err();
    assert_eq!(err.message, "invalid value group_id, please check");
    let err = GroupKey::new("003", "pay", "").unwrap_err();
    assert_eq!(err.message, "invalid value tenant, please check");
    assert!(!err.is_timeout());
}

#[test]
fn group_key_with_a_plus_in_a_part_does_not_round_trip() {
    let key = GroupKey::new_without_tenant("a+b", "g").unwrap();
    assert_eq!(key.to_string(), "a+b+g");
    let back = GroupKey::parse("a+b+g").unwrap();
    assert_ne!(back, key);
    assert_eq!(back, GroupKey::new("a", "b", "g").unwrap());
}
