use comprehensive_rust::text::{decimal_string, digit_text, natural_string, push_decimal_digits};

#[test]
fn decimal_string_agrees_with_the_standard_formatting() {
    let values = [
        0,
        1,
        -1,
        9,
        10,
        -10,
        99,
        100,
        101,
        1234567890,
        -1234567890,
        i64::MAX,
        i64::MIN,
        i64::MIN + 1,
        i32::MIN as i64,
        u32::MAX as i64,
    ];
    for n in values {
        assert_eq!(decimal_string(n), n.to_string());
    }
    assert_eq!(decimal_string(-9223372036854775808), "-9223372036854775808");
    assert_eq!(decimal_string(7), "7");
}

#[test]
fn natural_string_agrees_with_the_standard_formatting() {
    for n in [0, 5, 10, 4294967296, u64::MAX, u64::MAX - 1, 1000000007] {
        assert_eq!(natural_string(n), n.to_string());
    }
    assert_eq!(natural_string(18446744073709551615), "18446744073709551615");
}

#[test]
fn digits_are_appended_to_what_is_there() {
    let mut text = String::from("n = ");
    push_decimal_digits(&mut text, 405);
    assert_eq!(text, "n = 405");
    push_decimal_digits(&mut text, 0);
    assert_eq!(text, "n = 4050");
}

#[test]
fn each_digit_has_its_text() {
    let all: Vec<&str> = (0..10).map(digit_text).collect();
    assert_eq!(all, vec!["0", "1", "2", "3", "4", "5", "6", "7", "8", "9"]);
}
