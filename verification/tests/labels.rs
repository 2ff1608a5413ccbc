use candle_chart::label::format_hundredths;

#[test]
fn hundredths_have_two_decimals() {
    assert_eq!(format_hundredths(0), "0.00");
    assert_eq!(format_hundredths(5), "0.05");
    assert_eq!(format_hundredths(50), "0.50");
    assert_eq!(format_hundredths(99), "0.99");
    assert_eq!(format_hundredths(100), "1.00");
    assert_eq!(format_hundredths(12_345), "123.45");
    assert_eq!(format_hundredths(10_080), "100.80");
    assert_eq!(format_hundredths(1_000_000_007), "10000000.07");
}

#[test]
fn negative_hundredths_carry_a_minus_sign() {
    assert_eq!(format_hundredths(-1), "-0.01");
    assert_eq!(format_hundredths(-5), "-0.05");
    assert_eq!(format_hundredths(-100), "-1.00");
    assert_eq!(format_hundredths(-12_345), "-123.45");
}

#[test]
fn hundredths_at_the_ends_of_the_range() {
    assert_eq!(format_hundredths(i128::MAX), "1701411834604692317316873037158841057.27");
    assert_eq!(format_hundredths(i128::MIN), "-1701411834604692317316873037158841057.28");
    assert_eq!(format_hundredths(i64::MAX as i128), "92233720368547758.07");
}

#[test]
fn hundredths_agree_with_integer_formatting() {
    let mut v: i128 = -250_000;
    while v < 250_000 {
        let a = v.unsigned_abs();
        let sign = if v < 0 { "-" } else { "" };
        assert_eq!(format_hundredths(v), format!("{}{}.{:02}", sign, a / 100, a % 100));
        v += 37;
    }
}
