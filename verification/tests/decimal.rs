use calculator_bot::decimal::{parse_i32, parse_i64, push_decimal, push_decimal_nat, to_decimal};

const TEXTS: [&str; 40] = [
    "", "0", "7", "-0", "+0", "+5", "-5", "007", "-007", "+", "-", "--1", "+-1", "-+1", "++1",
    "1-", " 1", "1 ", "1 2", "1a", "a1", "1.0", "1e3", "0x10", "١٢", "１２", "12\n",
    "2147483647", "2147483648", "-2147483648", "-2147483649", "9223372036854775807",
    "9223372036854775808", "-9223372036854775808", "-9223372036854775809",
    "99999999999999999999999999999999999999999", "-99999999999999999999999999999999999999999",
    "00000000000000000000000000000000000000001", "-00000000000000000000000000002147483648",
    "4294967296",
];

#[test]
fn parse_i32_reads_what_the_standard_library_reads() {
    for text in TEXTS {
        assert_eq!(parse_i32(text), text.parse::<i32>().ok(), "{text:?}");
    }
}

#[test]
fn parse_i64_reads_what_the_standard_library_reads() {
    for text in TEXTS {
        assert_eq!(parse_i64(text), text.parse::<i64>().ok(), "{text:?}");
    }
}

#[test]
fn parse_exact_values() {
    assert_eq!(parse_i32("-2147483648"), Some(i32::MIN));
    assert_eq!(parse_i32("2147483647"), Some(i32::MAX));
    assert_eq!(parse_i32("2147483648"), None);
    assert_eq!(parse_i32("+12"), Some(12));
    assert_eq!(parse_i32("-0"), Some(0));
    assert_eq!(parse_i32(""), None);
    assert_eq!(parse_i64("-9223372036854775808"), Some(i64::MIN));
    assert_eq!(parse_i64("9223372036854775807"), Some(i64::MAX));
    assert_eq!(parse_i64("9223372036854775808"), None);
}

#[test]
fn to_decimal_writes_what_the_standard_library_writes() {
    let mut numbers: Vec<i64> = vec![i64::MIN, i64::MIN + 1, i64::MAX, i64::MAX - 1];
    numbers.extend(-1100..1100);
    let mut power: i64 = 1;
    for _ in 0..18 {
        power *= 10;
        numbers.extend([power - 1, power, power + 1, -power + 1, -power, -power - 1]);
    }
    for n in numbers {
        assert_eq!(to_decimal(n), n.to_string());
    }
}

#[test]
fn decimal_exact_values() {
    assert_eq!(to_decimal(0), "0");
    assert_eq!(to_decimal(-1), "-1");
    assert_eq!(to_decimal(10), "10");
    assert_eq!(to_decimal(-9223372036854775808), "-9223372036854775808");
    let mut out = String::from("n = ");
    push_decimal(&mut out, -305);
    assert_eq!(out, "n = -305");
    push_decimal_nat(&mut out, 18446744073709551615);
    assert_eq!(out, "n = -30518446744073709551615");
}

#[test]
fn what_is_written_reads_back() {
    for n in [i32::MIN, -1000, -1, 0, 1, 9, 10, 99, 100, 123456789, i32::MAX] {
        assert_eq!(parse_i32(&to_decimal(n as i64)), Some(n));
    }
    for n in [i64::MIN, -4294967296, 0, 4294967296, i64::MAX] {
        assert_eq!(parse_i64(&to_decimal(n)), Some(n));
    }
}
