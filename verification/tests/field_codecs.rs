use opensea_stream::address::{Address, H256};
use opensea_stream::chain::{Chain, ListingType};
use opensea_stream::link::UrlText;
use opensea_stream::price::Price;
use opensea_stream::text::{parse_u64, u64_to_dec};
use opensea_stream::time::Timestamp;
use opensea_stream::ErrorKind;

#[test]
fn address_parses_either_case_and_writes_lowercase() {
    let a = Address::from_hex_str("0xAbCdAbCdAbCdAbCdAbCdAbCdAbCdAbCd12341234").unwrap();
    assert_eq!(a.to_hex_string(), "0xabcdabcdabcdabcdabcdabcdabcdabcd12341234");
    let b = Address::from_hex_str("abcdabcdabcdabcdabcdabcdabcdabcd12341234").unwrap();
    assert_eq!(b.to_hex_string(), "0xabcdabcdabcdabcdabcdabcdabcdabcd12341234");
    assert_eq!(a.as_bytes(), b.as_bytes());
    assert_eq!(a.as_bytes()[0], 0xab);
    assert_eq!(a.as_bytes()[19], 0x34);
}

#[test]
fn address_rejects_wrong_length_or_bad_digit() {
    let e = Address::from_hex_str("0xabc").unwrap_err();
    assert_eq!(e.kind, ErrorKind::InvalidAddress);
    let e = Address::from_hex_str("nothex").unwrap_err();
    assert_eq!(e.kind, ErrorKind::InvalidAddress);
    let e = Address::from_hex_str("0xzzcdabcdabcdabcdabcdabcdabcdabcd12341234").unwrap_err();
    assert_eq!(e.kind, ErrorKind::InvalidAddress);
}

#[test]
fn hash_round_trips_as_thirty_two_bytes() {
    let s = "0x00112233445566778899aabbccddeeff00112233445566778899aabbccddeeff";
    let h = H256::from_hex_str(s).unwrap();
    assert_eq!(h.to_hex_string(), s);
    assert_eq!(h.as_bytes().len(), 32);
    let e = H256::from_hex_str("0xabcdabcdabcdabcdabcdabcdabcdabcd12341234").unwrap_err();
    assert_eq!(e.kind, ErrorKind::InvalidAddress);
}

#[test]
fn chain_names_map_both_ways() {
    let table: Vec<(Chain, &str)> = vec![
        (Chain::Ethereum, "ethereum"),
        (Chain::Polygon, "matic"),
        (Chain::Klaytn, "klaytn"),
        (Chain::Solana, "solana"),
        (Chain::Rinkeby, "rinkeby"),
        (Chain::Mumbai, "mumbai"),
        (Chain::Baobab, "baobab"),
    ];
    for (chain, name) in table {
        assert_eq!(chain.name(), name);
        assert_eq!(Chain::from_name(name), Some(chain));
    }
    assert_eq!(Chain::from_name("polygon"), None);
    assert_eq!(Chain::from_name("Ethereum"), None);
    assert_eq!(Chain::from_name("foo"), None);
}

#[test]
fn listing_type_names_map_both_ways() {
    assert_eq!(ListingType::English.name(), "english");
    assert_eq!(ListingType::Dutch.name(), "dutch");
    assert_eq!(ListingType::from_name("english"), Some(ListingType::English));
    assert_eq!(ListingType::from_name("dutch"), Some(ListingType::Dutch));
    assert_eq!(ListingType::from_name("English"), None);
    assert_eq!(ListingType::from_name("buyout"), None);
}

#[test]
fn timestamp_parses_iso8601_with_offset() {
    let t = Timestamp::parse("2022-01-01T00:00:00+00:00").unwrap();
    assert_eq!(t.text(), "2022-01-01T00:00:00+00:00");
    assert_eq!(t.micros(), 1_640_995_200_000_000);
    let u = Timestamp::parse("2022-01-01T05:30:00+05:30").unwrap();
    assert_eq!(u.micros(), 1_640_995_200_000_000);
}

#[test]
fn timestamp_rejects_text_without_offset() {
    let e = Timestamp::parse("2022-01-01T00:00:00").unwrap_err();
    assert_eq!(e.kind, ErrorKind::MalformedEnvelope);
    let e = Timestamp::parse("not a date").unwrap_err();
    assert_eq!(e.kind, ErrorKind::MalformedEnvelope);
}

#[test]
fn url_text_keeps_the_wire_form() {
    let u = UrlText::parse("https://testnets.opensea.io/assets/0xe5/2").unwrap();
    assert_eq!(u.as_str(), "https://testnets.opensea.io/assets/0xe5/2");
    let e = UrlText::parse("not a url").unwrap_err();
    assert_eq!(e.kind, ErrorKind::MalformedEnvelope);
}

#[test]
fn price_accepts_numeric_text_forms() {
    for ok in ["1.23", "0", "1", "1.0", "1.", ".5", "-2.5", "+3", "6e7", "1.5E-3"] {
        let p = Price::parse(ok).unwrap();
        assert_eq!(p.as_str(), ok);
        // Every accepted form is a float Rust can read back.
        let _: f64 = ok.parse().unwrap();
    }
}

#[test]
fn price_rejects_non_numeric_text() {
    for bad in ["", "abc", "1.2.3", "--1", ".", "1e", "e5", "0x10", "1 "] {
        let e = Price::parse(bad).unwrap_err();
        assert_eq!(e.kind, ErrorKind::NumericOverflowOrFormat);
    }
}

#[test]
fn listing_type_labels() {
    assert_eq!(ListingType::English.label(), "English");
    assert_eq!(ListingType::Dutch.label(), "Dutch");
}

#[test]
fn quantity_parse_honours_the_u64_boundary() {
    assert_eq!(parse_u64("0"), Some(0));
    assert_eq!(parse_u64("007"), Some(7));
    assert_eq!(parse_u64("18446744073709551615"), Some(u64::MAX));
    assert_eq!(parse_u64("18446744073709551616"), None);
    assert_eq!(parse_u64(""), None);
    assert_eq!(parse_u64("12a"), None);
    assert_eq!(parse_u64("-1"), None);
}

#[test]
fn quantity_formats_without_leading_zeros() {
    assert_eq!(u64_to_dec(0), "0");
    assert_eq!(u64_to_dec(42), "42");
    assert_eq!(u64_to_dec(u64::MAX), "18446744073709551615");
}
