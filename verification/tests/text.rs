use metroidvania::text::{position_text, push_decimal, push_pixels};

fn decimal(n: u64) -> String {
    let mut out = String::new();
    push_decimal(&mut out, n);
    out
}

fn pixels(units: i64) -> String {
    let mut out = String::new();
    push_pixels(&mut out, units);
    out
}

#[test]
fn decimal_digits() {
    assert_eq!(decimal(0), "0");
    assert_eq!(decimal(7), "7");
    assert_eq!(decimal(9), "9");
    assert_eq!(decimal(10), "10");
    assert_eq!(decimal(101), "101");
    assert_eq!(decimal(1_234_567_890), "1234567890");
    assert_eq!(decimal(u64::MAX), "18446744073709551615");
}

#[test]
fn decimal_appends() {
    let mut out = String::from("n = ");
    push_decimal(&mut out, 42);
    assert_eq!(out, "n = 42");
    push_pixels(&mut out, -12_345);
    assert_eq!(out, "n = 42-123");
}

#[test]
fn decimal_agrees_with_the_standard_formatter() {
    let mut n: u64 = 1;
    for _ in 0..200 {
        assert_eq!(decimal(n), format!("{}", n));
        assert_eq!(decimal(n % 1_000), format!("{}", n % 1_000));
        n = n.wrapping_mul(6_364_136_223_846_793_005).wrapping_add(1_442_695_040_888_963_407);
    }
}

#[test]
fn whole_pixels_round_to_nearest() {
    assert_eq!(pixels(0), "0");
    assert_eq!(pixels(49), "0");
    assert_eq!(pixels(51), "1");
    assert_eq!(pixels(100), "1");
    assert_eq!(pixels(149), "1");
    assert_eq!(pixels(151), "2");
    assert_eq!(pixels(49_200), "492");
    assert_eq!(pixels(30_080), "301");
    assert_eq!(pixels(99_949), "999");
    assert_eq!(pixels(99_951), "1000");
}

#[test]
fn halves_round_to_the_even_pixel() {
    assert_eq!(pixels(50), "0");
    assert_eq!(pixels(150), "2");
    assert_eq!(pixels(250), "2");
    assert_eq!(pixels(350), "4");
    assert_eq!(pixels(10_050), "100");
    assert_eq!(pixels(10_150), "102");
    assert_eq!(pixels(-150), "-2");
    assert_eq!(pixels(-250), "-2");
}

#[test]
fn negative_coordinates_keep_their_sign() {
    assert_eq!(pixels(-1), "-0");
    assert_eq!(pixels(-40), "-0");
    assert_eq!(pixels(-50), "-0");
    assert_eq!(pixels(-51), "-1");
    assert_eq!(pixels(-14_063), "-141");
}

#[test]
fn extreme_coordinates() {
    assert_eq!(pixels(i64::MAX), "92233720368547758");
    assert_eq!(pixels(i64::MIN), "-92233720368547758");
    assert_eq!(pixels(i64::MIN + 1), "-92233720368547758");
}

#[test]
fn position_line() {
    assert_eq!(position_text(10_000, 30_000), "Position: (100, 300)");
    assert_eq!(position_text(0, 49_200), "Position: (0, 492)");
    assert_eq!(position_text(24_500, 40_260), "Position: (245, 403)");
    assert_eq!(position_text(-30, -9_870), "Position: (-0, -99)");
}

#[test]
fn pixels_agree_with_float_formatting() {
    for units in -30_000i64..=30_000 {
        let expected = format!("{:.0}", units as f64 / 100.0);
        assert_eq!(pixels(units), expected, "{}", units);
    }
    let mut seed: u64 = 99;
    for _ in 0..20_000 {
        seed = seed.wrapping_mul(6_364_136_223_846_793_005).wrapping_add(1_442_695_040_888_963_407);
        let units: i64 = ((seed >> 20) % 2_000_000_001) as i64 - 1_000_000_000;
        let expected = format!("{:.0}", units as f64 / 100.0);
        assert_eq!(pixels(units), expected, "{}", units);
    }
}

#[test]
fn position_line_agrees_with_float_formatting() {
    for (x, y) in [(10_000i64, 30_000i64), (10_050, 30_150), (76_800, 49_200), (-20, -50), (12_345, -6_789)] {
        let expected = format!("Position: ({:.0}, {:.0})", x as f64 / 100.0, y as f64 / 100.0);
        assert_eq!(position_text(x, y), expected);
    }
}
