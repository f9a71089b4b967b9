use ersha_dispatch::text::{concat_str, push_decimal, push_digit, replace_all_str};

#[test]
fn decimal_of_zero_is_one_digit() {
    let mut s = String::from("n=");
    push_decimal(&mut s, 0);
    assert_eq!(s, "n=0");
}

#[test]
fn decimal_matches_display_for_large_values() {
    for v in [1u128, 9, 10, 99, 100, 12345, u64::MAX as u128, u128::MAX] {
        let mut s = String::new();
        push_decimal(&mut s, v);
        assert_eq!(s, v.to_string());
    }
}

#[test]
fn push_digit_appends_one_character() {
    let mut s = String::from("ab");
    push_digit(&mut s, 7);
    assert_eq!(s, "ab7");
}

#[test]
fn replace_all_replaces_every_occurrence_left_to_right() {
    assert_eq!(replace_all_str("a:9000b:9000", ":9000", ":8080"), "a:8080b:8080");
    assert_eq!(replace_all_str("aaa", "aa", "b"), "ba");
    assert_eq!(replace_all_str("no match", "xyz", "q"), "no match");
    assert_eq!(replace_all_str("", "x", "y"), "");
    for (s, p, r) in [("héllo héllo", "é", "e"), ("abab", "ab", ""), ("x:9000:9000", ":9000", "")] {
        assert_eq!(replace_all_str(s, p, r), s.replace(p, r));
    }
}

#[test]
fn concat_joins_in_order() {
    assert_eq!(concat_str("http://", "host"), "http://host");
}
