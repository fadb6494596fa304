use aux7::decimal::render_decimal;

#[test]
fn zero_is_one_digit() {
    assert_eq!(render_decimal(0), "0");
}

#[test]
fn single_digits() {
    assert_eq!(render_decimal(5), "5");
    assert_eq!(render_decimal(9), "9");
}

#[test]
fn several_digits() {
    assert_eq!(render_decimal(10), "10");
    assert_eq!(render_decimal(42), "42");
    assert_eq!(render_decimal(100), "100");
    assert_eq!(render_decimal(1234567890), "1234567890");
}

#[test]
fn largest_number() {
    assert_eq!(render_decimal(u32::MAX), "4294967295");
}

#[test]
fn no_leading_zero() {
    assert_eq!(render_decimal(1000), "1000");
    assert_eq!(render_decimal(1001), "1001");
    assert_eq!(render_decimal(10), "10");
}

#[test]
fn agrees_with_the_formatter() {
    for n in 0u32..2000 {
        assert_eq!(render_decimal(n), format!("{}", n));
    }
    for shift in 0..32 {
        let n: u32 = 1 << shift;
        assert_eq!(render_decimal(n), format!("{}", n));
        assert_eq!(render_decimal(n - 1), format!("{}", n - 1));
    }
}
