use std::time::Duration;

use rpkl::types::integer::{checked_add, checked_mul, format_decimal, parse_large_integer, Integer};
use rpkl::utils::duration::{from_days, from_hours, from_mins};

#[test]
fn parse_large_integer_cases() {
    assert_eq!(parse_large_integer("0"), Ok(0));
    assert_eq!(parse_large_integer(""), Ok(0));
    assert_eq!(parse_large_integer("00123"), Ok(123));
    assert_eq!(
        parse_large_integer("170141183460469231731687303715884105727"),
        Ok(i128::MAX)
    );
    assert_eq!(parse_large_integer("12a"), Err("Invalid character in number string"));
    assert_eq!(parse_large_integer("-1"), Err("Invalid character in number string"));
}

#[test]
fn parse_and_format_round_trip() {
    for n in [0i128, 7, 10, 99, 12345, i64::MAX as i128, i128::MAX] {
        let text = format_decimal(n);
        assert_eq!(text, n.to_string());
        assert_eq!(parse_large_integer(&text), Ok(n));
    }
    assert_eq!(format_decimal(-42), "-42");
    assert_eq!(format_decimal(i128::MIN), i128::MIN.to_string());
}

#[test]
fn checked_ops() {
    assert_eq!(checked_add(2, 3), 5);
    assert_eq!(checked_mul(-4, 5), -20);
}

#[test]
fn integer_demote_narrowest() {
    assert_eq!(Integer::demote(5), Integer::Int8(5));
    assert_eq!(Integer::demote(-129), Integer::Int(-129));
    assert_eq!(Integer::demote(3_000_000_000), Integer::Int64(3_000_000_000));
    assert_eq!(Integer::demote(i128::MAX), Integer::Int128(i128::MAX));
    assert_eq!(Integer::Int64(7).promote(), (Integer::Int64(7), 7));
}

#[test]
fn integer_arithmetic() {
    assert_eq!(Integer::Int8(100).add(Integer::Int8(100)), Integer::Int(200));
    assert_eq!(Integer::Int(5).add(Integer::Int128(-5)), Integer::Int8(0));
    assert_eq!(Integer::Int8(3).add(Integer::Int(4)), Integer::Int(4).add(Integer::Int8(3)));
    assert_eq!(Integer::Int(10).sub(Integer::Int(3)), Integer::Int(7));
    assert_eq!(Integer::Int64(6).mul(Integer::Int64(7)), Integer::Int64(42));
    assert_eq!(Integer::Int8(-7).div(Integer::Int8(2)), Integer::Int8(-3));
    assert_eq!(Integer::Int8(7).div(Integer::Int8(-2)), Integer::Int8(-3));
    assert_eq!(Integer::Int8(-7).div(Integer::Int8(-2)), Integer::Int8(3));
    assert_eq!(Integer::Int128(i128::MIN).div(Integer::Int128(1)), Integer::Int128(i128::MIN));
    assert_eq!(Integer::Int128(i128::MIN).div(Integer::Int128(-2)), Integer::Int128(i128::MIN / -2));
    assert_eq!(Integer::from(12i32), Integer::Int(12));
    assert_eq!(Integer::Int(-12).to_string(), "-12");
    assert_eq!(Integer::Int8(0).to_string(), "0");
}

#[test]
fn durations() {
    assert_eq!(from_days(1), Some(Duration::from_secs(86400)));
    assert_eq!(from_hours(2), Some(Duration::from_secs(7200)));
    assert_eq!(from_mins(3), Some(Duration::from_secs(180)));
    assert_eq!(from_days(u64::MAX / 86400), Some(Duration::from_secs((u64::MAX / 86400) * 86400)));
    assert_eq!(from_days(u64::MAX / 86400 + 1), None);
    assert_eq!(from_hours(u64::MAX), None);
    assert_eq!(from_mins(u64::MAX / 60 + 1), None);
}
