use guest_pages::numeral::{digit_value, read_integer};
use guest_pages::temperature::Temperature;
use guest_pages::text::{chars_of, push_decimal, push_digits};

fn whole(text: &str) -> Option<i32> {
    Temperature::read(text).map(|t| t.whole())
}

fn fahrenheit(text: &str) -> Option<i32> {
    Temperature::read(text).map(|t| t.fahrenheit().whole())
}

#[test]
fn numerals_are_read() {
    assert_eq!(whole("15.0"), Some(15));
    assert_eq!(whole("15"), Some(15));
    assert_eq!(whole("0"), Some(0));
    assert_eq!(whole("-0.0"), Some(0));
    assert_eq!(whole("-3.9"), Some(-3));
    assert_eq!(whole("3.9"), Some(3));
    assert_eq!(whole("21.700000000000045"), Some(21));
    assert_eq!(whole("007"), Some(7));
    assert_eq!(whole("1e2"), Some(100));
    assert_eq!(whole("1E2"), Some(100));
    assert_eq!(whole("1.5e+1"), Some(15));
    assert_eq!(whole("125e-1"), Some(12));
    assert_eq!(whole("1e-7"), Some(0));
    assert_eq!(whole("-1.25e3"), Some(-1250));
}

#[test]
fn what_is_no_numeral_is_refused() {
    for text in [
        "", "-", "+1", "abc", "1.", ".5", "1e", "1e+", "1e-", "--1", "1..2", "1.2.3", "1e2e3",
        " 1", "1 ", "1,5", "0x10", "NaN", "inf", "1e1.5", "\u{0661}",
    ] {
        assert!(Temperature::read(text).is_none(), "{:?}", text);
    }
}

#[test]
fn long_numerals_are_refused() {
    let digits38 = "1".repeat(38);
    let digits39 = "1".repeat(39);
    assert_eq!(whole(&digits38), Some(i32::MAX));
    assert!(Temperature::read(&digits39).is_none());
    assert_eq!(whole(&format!("0.{}", "0".repeat(36) + "1")), Some(0));
    assert!(Temperature::read(&format!("0.{}", "0".repeat(37) + "1")).is_none());
    assert_eq!(whole("1e9999"), Some(i32::MAX));
    assert_eq!(whole("1e-9999"), Some(0));
    assert!(Temperature::read("1e10000").is_none());
    assert!(Temperature::read("1e00001").is_none());
}

#[test]
fn reading_saturates() {
    assert_eq!(whole("2147483647"), Some(i32::MAX));
    assert_eq!(whole("2147483648"), Some(i32::MAX));
    assert_eq!(whole("-2147483648"), Some(i32::MIN));
    assert_eq!(whole("-2147483649"), Some(i32::MIN));
    assert_eq!(whole("1e30"), Some(i32::MAX));
    assert_eq!(whole("-1e30"), Some(i32::MIN));
    assert_eq!(fahrenheit("1e30"), Some(i32::MAX));
    assert_eq!(fahrenheit("-1e30"), Some(i32::MIN));
    assert_eq!(whole("1e18"), Some(i32::MAX));
    assert_eq!(whole("99999999999999999999999999999999999999e1"), Some(i32::MAX));
}

#[test]
fn digits_below_a_unit_are_dropped() {
    assert_eq!(whole("0.9999999999999999999999"), Some(0));
    assert_eq!(whole("1.0000000000000000009"), Some(1));
    assert_eq!(fahrenheit("0.0000000000000000009"), Some(32));
    assert_eq!(fahrenheit("-0.0000000000000000009"), Some(32));
    assert_eq!(fahrenheit("-0.000000000000000001"), Some(31));
}

#[test]
fn fahrenheit_is_nine_fifths_and_thirty_two_more() {
    assert_eq!(fahrenheit("15.0"), Some(59));
    assert_eq!(fahrenheit("0"), Some(32));
    assert_eq!(fahrenheit("100"), Some(212));
    assert_eq!(fahrenheit("-40"), Some(-40));
    assert_eq!(fahrenheit("-3.9"), Some(24));
    assert_eq!(fahrenheit("37"), Some(98));
    assert_eq!(fahrenheit("-17.8"), Some(0));
    assert_eq!(fahrenheit("-17.7"), Some(0));
    assert_eq!(fahrenheit("-18.4"), Some(-1));
    assert_eq!(fahrenheit("-20"), Some(-4));
    assert_eq!(fahrenheit("21.700000000000045"), Some(71));
    assert_eq!(fahrenheit("10.555555555555555"), Some(50));
    assert_eq!(fahrenheit("-273.15"), Some(-459));
}

#[test]
fn whole_degrees_make_a_temperature() {
    let t = Temperature::from_degrees(-12);
    assert_eq!(t.whole(), -12);
    assert_eq!(t.fahrenheit().whole(), 10);
    assert_eq!(Temperature::from_degrees(i32::MAX).whole(), i32::MAX);
    assert_eq!(Temperature::from_degrees(i32::MIN).whole(), i32::MIN);
    assert_eq!(Temperature::from_degrees(i32::MAX).fahrenheit().whole(), i32::MAX);
}

#[test]
fn integers_are_read() {
    assert_eq!(read_integer("0"), Some(0));
    assert_eq!(read_integer("42"), Some(42));
    assert_eq!(read_integer("-7"), Some(-7));
    assert_eq!(read_integer("-0"), Some(0));
    assert_eq!(read_integer("0042"), Some(42));
    assert_eq!(read_integer("9223372036854775807"), Some(i64::MAX));
    assert_eq!(read_integer("-9223372036854775808"), Some(i64::MIN));
}

#[test]
fn what_is_no_integer_is_refused() {
    for text in [
        "", "-", "1.0", "1e2", "1e0", "1.", "9223372036854775808", "-9223372036854775809",
        "+1", "1 ", "one", "18446744073709551616",
    ] {
        assert_eq!(read_integer(text), None, "{:?}", text);
    }
    assert_eq!(read_integer(&"9".repeat(39)), None);
}

#[test]
fn digits_have_values() {
    assert_eq!(digit_value('0'), Some(0));
    assert_eq!(digit_value('7'), Some(7));
    assert_eq!(digit_value('9'), Some(9));
    assert_eq!(digit_value('a'), None);
    assert_eq!(digit_value('-'), None);
    assert_eq!(digit_value('\u{0661}'), None);
}

#[test]
fn decimals_are_written() {
    let write = |n: i64| {
        let mut out = String::from("n=");
        push_decimal(&mut out, n);
        out
    };
    assert_eq!(write(0), "n=0");
    assert_eq!(write(7), "n=7");
    assert_eq!(write(10), "n=10");
    assert_eq!(write(503), "n=503");
    assert_eq!(write(-1), "n=-1");
    assert_eq!(write(-120), "n=-120");
    assert_eq!(write(i64::MAX), "n=9223372036854775807");
    assert_eq!(write(i64::MIN), "n=-9223372036854775808");
    let mut digits = String::new();
    push_digits(&mut digits, u64::MAX);
    assert_eq!(digits, "18446744073709551615");
}

#[test]
fn characters_are_taken_in_order() {
    assert_eq!(chars_of(""), Vec::<char>::new());
    assert_eq!(chars_of("a\u{e9}\u{1F31F}z"), vec!['a', '\u{e9}', '\u{1F31F}', 'z']);
}
