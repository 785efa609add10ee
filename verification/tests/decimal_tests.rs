use backend_server::decimal::push_decimal;

fn decimal(n: usize) -> String {
    let mut out = String::new();
    push_decimal(&mut out, n);
    out
}

#[test]
fn push_decimal_writes_single_digits() {
    for n in 0..10usize {
        assert_eq!(decimal(n), n.to_string());
    }
    assert_eq!(decimal(0), "0");
    assert_eq!(decimal(9), "9");
}

#[test]
fn push_decimal_writes_without_leading_zeros() {
    assert_eq!(decimal(10), "10");
    assert_eq!(decimal(23), "23");
    assert_eq!(decimal(100), "100");
    assert_eq!(decimal(1024), "1024");
    assert_eq!(decimal(65535), "65535");
    assert_eq!(decimal(1000000), "1000000");
}

#[test]
fn push_decimal_writes_the_largest_number() {
    assert_eq!(decimal(usize::MAX), usize::MAX.to_string());
}

#[test]
fn push_decimal_agrees_with_the_standard_formatter() {
    let mut n: usize = 0;
    while n < 200_000 {
        assert_eq!(decimal(n), n.to_string());
        n += 1 + n / 7;
    }
}

#[test]
fn push_decimal_appends_to_what_is_there() {
    let mut out = String::from("Content-Length: ");
    push_decimal(&mut out, 23);
    assert_eq!(out, "Content-Length: 23");
    push_decimal(&mut out, 0);
    assert_eq!(out, "Content-Length: 230");
}
