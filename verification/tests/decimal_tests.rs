use btc_ticker::decimal::{decimal_string, parse_u16, parse_u64, parse_unsigned, IntError};

#[test]
fn parse_u16_accepts_plain_digits() {
    assert_eq!(parse_u16("7890"), Ok(7890));
    assert_eq!(parse_u16("0"), Ok(0));
    assert_eq!(parse_u16("65535"), Ok(65535));
    assert_eq!(parse_u16("0001080"), Ok(1080));
}

#[test]
fn parse_u16_accepts_a_plus_sign() {
    assert_eq!(parse_u16("+443"), Ok(443));
}

#[test]
fn parse_u16_errors_match_std() {
    assert_eq!(parse_u16(""), Err(IntError::Empty));
    assert_eq!(parse_u16("+"), Err(IntError::InvalidDigit));
    assert_eq!(parse_u16("-"), Err(IntError::InvalidDigit));
    assert_eq!(parse_u16("-1"), Err(IntError::InvalidDigit));
    assert_eq!(parse_u16("80a"), Err(IntError::InvalidDigit));
    assert_eq!(parse_u16(" 80"), Err(IntError::InvalidDigit));
    assert_eq!(parse_u16("65536"), Err(IntError::PosOverflow));
    assert_eq!(parse_u16("99999a"), Err(IntError::PosOverflow));
    assert_eq!(parse_u16("a99999"), Err(IntError::InvalidDigit));
}

#[test]
fn parse_u16_agrees_with_std_on_samples() {
    for s in ["", "+", "0", "12", "+12", "-12", "65535", "65536", "1_000", "８０", "100000", "00", "+0"] {
        let ours = parse_u16(s).ok();
        let std_result = s.parse::<u16>().ok();
        assert_eq!(ours, std_result, "input {:?}", s);
    }
}

#[test]
fn parse_u64_reads_exchange_timestamps() {
    assert_eq!(parse_u64("1700000000123"), Ok(1700000000123));
    assert_eq!(parse_u64("18446744073709551615"), Ok(u64::MAX));
    assert_eq!(parse_u64("18446744073709551616"), Err(IntError::PosOverflow));
}

#[test]
fn parse_unsigned_respects_the_given_maximum() {
    assert_eq!(parse_unsigned("255", 255), Ok(255));
    assert_eq!(parse_unsigned("256", 255), Err(IntError::PosOverflow));
}

#[test]
fn decimal_string_writes_without_leading_zeros() {
    assert_eq!(decimal_string(0), "0");
    assert_eq!(decimal_string(8443), "8443");
    assert_eq!(decimal_string(u64::MAX), u64::MAX.to_string());
}

#[test]
fn decimal_round_trip_on_ports() {
    for n in [0u16, 1, 9, 10, 443, 7890, 8443, 65535] {
        assert_eq!(parse_u16(&decimal_string(n as u64)), Ok(n));
    }
}
