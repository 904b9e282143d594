use opensea_stream::chain::Chain;
use opensea_stream::decode::decode_nft_id_str;
use opensea_stream::encode::encode_nft_id;
use opensea_stream::ErrorKind;

#[test]
fn nft_id_decodes_a_token_id_beyond_sixty_four_bits() {
    let s = "ethereum/0x1234567890abcdef1234567890abcdef12345678/123456789012345678901234567890";
    let n = decode_nft_id_str(s).unwrap();
    assert_eq!(n.network, Chain::Ethereum);
    assert_eq!(n.address.to_hex_string(), "0x1234567890abcdef1234567890abcdef12345678");
    assert_eq!(n.id.dec_str(), "123456789012345678901234567890");
    assert_eq!(encode_nft_id(&n), s);
}

#[test]
fn nft_id_normalizes_address_case_on_encode() {
    let s = "matic/0xABCDABCDABCDABCDABCDABCDABCDABCD12341234/7";
    let n = decode_nft_id_str(s).unwrap();
    assert_eq!(
        encode_nft_id(&n),
        "matic/0xabcdabcdabcdabcdabcdabcdabcdabcd12341234/7"
    );
}

#[test]
fn nft_id_fails_on_unknown_chain() {
    let e = decode_nft_id_str("foo/0xabc/1").unwrap_err();
    assert_eq!(e.kind, ErrorKind::UnknownChain);
}

#[test]
fn nft_id_fails_on_invalid_address() {
    let e = decode_nft_id_str("ethereum/nothex/1").unwrap_err();
    assert_eq!(e.kind, ErrorKind::InvalidAddress);
}

#[test]
fn nft_id_fails_on_two_segments() {
    let e = decode_nft_id_str("ethereum/0x0000000000000000000000000000000000000000")
        .unwrap_err();
    assert_eq!(e.kind, ErrorKind::InvalidIdentifier);
    let e = decode_nft_id_str("ethereum").unwrap_err();
    assert_eq!(e.kind, ErrorKind::InvalidIdentifier);
}

#[test]
fn nft_id_fails_on_bad_token_id() {
    let e = decode_nft_id_str("ethereum/0x1234567890abcdef1234567890abcdef12345678/x")
        .unwrap_err();
    assert_eq!(e.kind, ErrorKind::NumericOverflowOrFormat);
}

#[test]
fn nft_id_token_segment_is_the_remainder() {
    // A separator inside the token segment is not split again; the
    // remainder then fails the decimal parse rather than the segment count.
    let e = decode_nft_id_str("ethereum/0x1234567890abcdef1234567890abcdef12345678/1/2")
        .unwrap_err();
    assert_eq!(e.kind, ErrorKind::NumericOverflowOrFormat);
}
