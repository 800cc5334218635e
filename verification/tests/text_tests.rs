use libvirt_remote::text::{
    decimal_string, push_decimal_right, push_repeat, push_str_left, str_eq, to_ascii_lower,
    to_ascii_upper,
};

#[test]
fn decimals() {
    assert_eq!(decimal_string(0), "0");
    assert_eq!(decimal_string(10), "10");
    assert_eq!(decimal_string(u64::MAX), "18446744073709551615");
}

#[test]
fn alignment() {
    let mut s = String::new();
    push_decimal_right(&mut s, 42, 5, '0');
    assert_eq!(s, "00042");
    let mut s = String::new();
    push_decimal_right(&mut s, 123456, 3, ' ');
    assert_eq!(s, "123456");
    let mut s = String::new();
    push_str_left(&mut s, "ab", 4);
    assert_eq!(s, "ab  ");
    let mut s = String::from("x");
    push_repeat(&mut s, '-', 2);
    assert_eq!(s, "x--");
}

#[test]
fn ascii_case() {
    assert_eq!(to_ascii_upper('a'), 'A');
    assert_eq!(to_ascii_upper('é'), 'é');
    assert_eq!(to_ascii_lower('Z'), 'z');
    assert_eq!(to_ascii_lower('1'), '1');
    assert!(str_eq("abc", "abc"));
    assert!(!str_eq("abc", "abd"));
    assert!(!str_eq("ab", "abc"));
}
