use common::text::{push_decimal, same_text};

#[test]
fn decimal_matches_to_string() {
    for n in [0u64, 7, 9, 10, 42, 105, 1000, 123456789, u64::MAX] {
        let mut s = String::new();
        push_decimal(&mut s, n);
        assert_eq!(s, n.to_string());
    }
}

#[test]
fn push_decimal_appends() {
    let mut s = String::from("total=");
    push_decimal(&mut s, 305);
    assert_eq!(s, "total=305");
}

#[test]
fn comparing_texts() {
    assert!(same_text("harbor", "harbor"));
    assert!(!same_text("harbor", "Harbor"));
    assert!(!same_text("harbor", "harbo"));
}
