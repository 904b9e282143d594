use opensea_stream::u256::U256;
use opensea_stream::ErrorKind;

const MAX78: &str = "115792089237316195423570985008687907853269984665640564039457584007913129639935";

#[test]
fn u256_zero_and_one_round_trip() {
    let zero = U256::from_dec_str("0").unwrap();
    assert_eq!(zero.dec_str(), "0");
    let one = U256::from_dec_str("1").unwrap();
    assert_eq!(one.dec_str(), "1");
}

#[test]
fn u256_tolerates_leading_zeros() {
    let v = U256::from_dec_str("000123").unwrap();
    assert_eq!(v.dec_str(), "123");
    let z = U256::from_dec_str("0000").unwrap();
    assert_eq!(z.dec_str(), "0");
}

#[test]
fn u256_maximal_value_round_trips() {
    let v = U256::from_dec_str(MAX78).unwrap();
    assert_eq!(v.dec_str(), MAX78);
}

#[test]
fn u256_rejects_negative() {
    let e = U256::from_dec_str("-1").unwrap_err();
    assert_eq!(e.kind, ErrorKind::NumericOverflowOrFormat);
}

#[test]
fn u256_rejects_fraction() {
    let e = U256::from_dec_str("1.5").unwrap_err();
    assert_eq!(e.kind, ErrorKind::NumericOverflowOrFormat);
}

#[test]
fn u256_rejects_empty() {
    let e = U256::from_dec_str("").unwrap_err();
    assert_eq!(e.kind, ErrorKind::NumericOverflowOrFormat);
}

#[test]
fn u256_rejects_seventy_nine_digits() {
    let mut s = String::from("1");
    for _ in 0..78 {
        s.push('0');
    }
    let e = U256::from_dec_str(&s).unwrap_err();
    assert_eq!(e.kind, ErrorKind::NumericOverflowOrFormat);
}

#[test]
fn u256_rejects_value_just_past_the_limit() {
    // The maximal value with its last digit bumped: 2^256 exactly.
    let s = "115792089237316195423570985008687907853269984665640564039457584007913129639936";
    let e = U256::from_dec_str(s).unwrap_err();
    assert_eq!(e.kind, ErrorKind::NumericOverflowOrFormat);
}

#[test]
fn u256_accepts_value_just_under_the_limit() {
    let s = "115792089237316195423570985008687907853269984665640564039457584007913129639934";
    let v = U256::from_dec_str(s).unwrap();
    assert_eq!(v.dec_str(), s);
}

#[test]
fn u256_rejects_hex_prefix() {
    let e = U256::from_dec_str("0x10").unwrap_err();
    assert_eq!(e.kind, ErrorKind::NumericOverflowOrFormat);
}
