use pickaxe::version::{keys_le, parse_key, version_at_most};

#[test]
fn keys_of_versions() {
    assert_eq!(parse_key("1.20.5"), vec![1, 20, 5]);
    assert_eq!(parse_key("1.21.0-pre1"), vec![1, 21, 0]);
    assert_eq!(parse_key(""), vec![0]);
    assert_eq!(parse_key("1..2"), vec![1, 0, 2]);
    assert_eq!(parse_key("99999999999999999999999"), vec![u64::MAX]);
}

#[test]
fn keys_compare_lexicographically() {
    assert!(keys_le(&vec![1, 17], &vec![1, 17, 0]));
    assert!(keys_le(&vec![1, 17, 0], &vec![1, 17]));
    assert!(!keys_le(&vec![1, 17, 1], &vec![1, 17]));
    assert!(keys_le(&vec![], &vec![0, 0]));
    assert!(keys_le(&vec![1, 9], &vec![1, 10]));
}

#[test]
fn version_order() {
    assert!(version_at_most("1.17.0", "1.18.2"));
    assert!(!version_at_most("1.20.5", "1.18.2"));
    assert!(version_at_most("1.20.5", "1.20.5"));
    assert!(version_at_most("1.9", "1.10"));
}
