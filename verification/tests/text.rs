use nolanforge::text::{numbered, render_decimal, render_index, render_millionths, render_signed};

#[test]
fn decimal_of_small_and_large_numbers() {
    assert_eq!(render_decimal(0), "0");
    assert_eq!(render_decimal(7), "7");
    assert_eq!(render_decimal(10), "10");
    assert_eq!(render_decimal(12345), "12345");
    assert_eq!(render_decimal(u128::MAX), "340282366920938463463374607431768211455");
    assert_eq!(render_index(42), "42");
}

#[test]
fn signed_decimal_keeps_the_sign() {
    assert_eq!(render_signed(0), "0");
    assert_eq!(render_signed(1920), "1920");
    assert_eq!(render_signed(-5), "-5");
    assert_eq!(render_signed(i64::MIN), "-9223372036854775808");
    assert_eq!(render_signed(i64::MAX), "9223372036854775807");
}

#[test]
fn millionths_are_rendered_as_the_shortest_decimal() {
    assert_eq!(render_millionths(0), "0");
    assert_eq!(render_millionths(5_000_000), "5");
    assert_eq!(render_millionths(10_000_000), "10");
    assert_eq!(render_millionths(2_500_000), "2.5");
    assert_eq!(render_millionths(100_000), "0.1");
    assert_eq!(render_millionths(800_000), "0.8");
    assert_eq!(render_millionths(1_050_000), "1.05");
    assert_eq!(render_millionths(1_234_567), "1.234567");
    assert_eq!(render_millionths(1), "0.000001");
    assert_eq!(render_millionths(1_000_010), "1.00001");
}

#[test]
fn negative_millionths_are_rendered_with_a_minus() {
    assert_eq!(render_millionths(-3_000_000), "-3");
    assert_eq!(render_millionths(-500_000), "-0.5");
    assert_eq!(render_millionths(-1), "-0.000001");
    assert_eq!(
        render_millionths(i128::MIN),
        "-170141183460469231731687303715884.105728"
    );
}

#[test]
fn millionths_agree_with_the_float_they_stand_for() {
    let cases: [(i128, f64); 6] = [
        (5_000_000, 5.0),
        (2_500_000, 2.5),
        (100_000, 0.1),
        (-3_000_000, -3.0),
        (7_250_000, 7.25),
        (800_000, 0.8),
    ];
    for (micros, seconds) in cases {
        assert_eq!(render_millionths(micros), seconds.to_string());
    }
}

#[test]
fn numbered_puts_the_numeral_between_the_words() {
    assert_eq!(numbered("clip_", 3, ".mp4"), "clip_3.mp4");
    assert_eq!(numbered("", 0, ""), "0");
}

#[test]
fn distinct_numbers_have_distinct_numerals() {
    let mut seen: Vec<String> = Vec::new();
    for n in 0..200u128 {
        let text = render_decimal(n);
        assert!(!seen.contains(&text));
        seen.push(text);
    }
}
