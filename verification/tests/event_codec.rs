use opensea_stream::chain::ListingType;
use opensea_stream::schema::Payload;
use opensea_stream::{decode_stream_event, encode_stream_event, ErrorKind, Json};

fn jstr(s: &str) -> Json {
    Json::Str(s.to_string())
}

fn jnum(s: &str) -> Json {
    Json::Num(s.to_string())
}

fn jobj(entries: Vec<(&str, Json)>) -> Json {
    Json::Obj(entries.into_iter().map(|(k, v)| (k.to_string(), v)).collect())
}

fn json_eq(a: &Json, b: &Json) -> bool {
    match (a, b) {
        (Json::Null, Json::Null) => true,
        (Json::Bool(x), Json::Bool(y)) => x == y,
        (Json::Num(x), Json::Num(y)) => x == y,
        (Json::Str(x), Json::Str(y)) => x == y,
        (Json::Arr(x), Json::Arr(y)) => {
            x.len() == y.len() && x.iter().zip(y.iter()).all(|(u, v)| json_eq(u, v))
        },
        (Json::Obj(x), Json::Obj(y)) => {
            x.len() == y.len()
                && x.iter().zip(y.iter()).all(|(u, v)| u.0 == v.0 && json_eq(&u.1, &v.1))
        },
        _ => false,
    }
}

const MAKER: &str = "0xabcdabcdabcdabcdabcdabcdabcdabcd12341234";
const TAKER: &str = "0x1111222233334444555566667777888899990000";
const TOKEN: &str = "0x0000000000a39bb272e79075ade125fd351887ac";
const HASH: &str = "0x00112233445566778899aabbccddeeff00112233445566778899aabbccddeeff";

fn wrapped(addr: &str) -> Json {
    jobj(vec![("address", jstr(addr))])
}

fn payment_token() -> Json {
    jobj(vec![
        ("address", jstr(TOKEN)),
        ("decimals", jnum("18")),
        ("eth_price", jstr("1.0")),
        ("name", jstr("Wrapped Ether")),
        ("symbol", jstr("WETH")),
        ("usd_price", jstr("1776.25")),
    ])
}

fn transaction() -> Json {
    jobj(vec![
        ("hash", jstr(HASH)),
        ("timestamp", jstr("2022-04-06T12:00:00+00:00")),
    ])
}

fn metadata() -> Json {
    jobj(vec![
        ("name", jstr("Wandering Soul #7")),
        ("description", Json::Null),
        ("image_url", jstr("https://img.example.com/7.png")),
        ("animation_url", Json::Null),
        ("metadata_url", Json::Null),
    ])
}

fn item() -> Json {
    jobj(vec![
        (
            "nft_id",
            jstr("ethereum/0x1234567890abcdef1234567890abcdef12345678/7"),
        ),
        ("permalink", jstr("https://opensea.io/assets/0x1234/7")),
        ("chain", jobj(vec![("name", jstr("ethereum"))])),
        ("metadata", metadata()),
    ])
}

fn context() -> Vec<(&'static str, Json)> {
    vec![("collection", jobj(vec![("slug", jstr("wandernauts"))])), ("item", item())]
}

fn envelope(tag: &str, payload: Json) -> Json {
    jobj(vec![
        ("sent_at", jstr("2022-04-06T12:00:01+00:00")),
        ("event_type", jstr(tag)),
        ("payload", payload),
    ])
}

fn listed_payload(listing_type: Json, taker: Json) -> Json {
    let mut entries = context();
    entries.extend(vec![
        ("event_timestamp", jstr("2022-04-06T11:59:59+00:00")),
        ("base_price", jstr("1000000000000000000")),
        ("expiration_date", jstr("2022-05-06T11:59:59+00:00")),
        ("is_private", Json::Bool(false)),
        ("listing_date", jstr("2022-04-06T11:59:58+00:00")),
        ("listing_type", listing_type),
        ("maker", wrapped(MAKER)),
        ("payment_token", payment_token()),
        ("quantity", jnum("1")),
        ("taker", taker),
    ]);
    jobj(entries)
}

fn sold_payload() -> Json {
    let mut entries = context();
    entries.extend(vec![
        ("event_timestamp", jstr("2022-04-06T11:59:59+00:00")),
        ("closing_date", jstr("2022-04-07T11:59:59+00:00")),
        ("is_private", Json::Bool(false)),
        ("listing_type", Json::Null),
        ("maker", wrapped(MAKER)),
        ("payment_token", payment_token()),
        ("quantity", jnum("1")),
        ("sale_price", jstr("250000000000000000")),
        ("taker", wrapped(TAKER)),
        ("transaction", transaction()),
    ]);
    jobj(entries)
}

fn transferred_payload() -> Json {
    let mut entries = context();
    entries.extend(vec![
        ("event_timestamp", jstr("2022-04-06T11:59:59+00:00")),
        ("transaction", transaction()),
        ("from_account", wrapped(MAKER)),
        ("to_account", wrapped(TAKER)),
        ("quantity", jnum("1")),
    ]);
    jobj(entries)
}

fn metadata_updated_payload() -> Json {
    let mut entries = context();
    entries.extend(vec![
        ("name", jstr("Wandering Soul #7 (renamed)")),
        ("description", Json::Null),
        ("image_preview_url", jstr("https://img.example.com/7-preview.png")),
        ("animation_url", Json::Null),
        ("background_color", jstr("ffffff")),
        ("metadata_url", Json::Null),
        (
            "traits",
            Json::Arr(vec![jobj(vec![("trait_type", jstr("hat")), ("value", jstr("wizard"))])]),
        ),
    ]);
    jobj(entries)
}

fn cancelled_payload() -> Json {
    let mut entries = context();
    entries.extend(vec![
        ("event_timestamp", jstr("2022-04-06T11:59:59+00:00")),
        ("listing_type", jstr("dutch")),
        ("payment_token", payment_token()),
        ("quantity", jnum("1")),
        ("transaction", transaction()),
    ]);
    jobj(entries)
}

fn offer_payload(tag_taker: Json) -> Json {
    let mut entries = context();
    entries.extend(vec![
        ("event_timestamp", jstr("2022-04-06T11:59:59+00:00")),
        ("base_price", jstr("42")),
        ("created_date", jstr("2022-04-06T11:00:00+00:00")),
        ("expiration_date", jstr("2022-04-09T11:00:00+00:00")),
        ("maker", wrapped(MAKER)),
        ("payment_token", payment_token()),
        ("quantity", jnum("1")),
        ("taker", tag_taker),
    ]);
    jobj(entries)
}

fn assert_round_trips(doc: &Json) {
    let ev = decode_stream_event(doc).unwrap();
    let out = encode_stream_event(&ev);
    assert!(json_eq(&out, doc));
}

#[test]
fn item_listed_decodes_end_to_end() {
    let doc = envelope("item_listed", listed_payload(jstr("english"), Json::Null));
    let ev = decode_stream_event(&doc).unwrap();
    assert_eq!(ev.sent_at.text(), "2022-04-06T12:00:01+00:00");
    match &ev.payload {
        Payload::ItemListed(d) => {
            assert_eq!(d.context.collection.slug(), "wandernauts");
            assert_eq!(d.context.item.chain.name(), "ethereum");
            // 10^18 exactly, beyond an f64's 53-bit mantissa guarantee.
            assert_eq!(d.base_price.dec_str(), "1000000000000000000");
            assert_eq!(d.maker.to_hex_string(), MAKER);
            assert_eq!(d.listing_type, Some(ListingType::English));
            assert!(d.taker.is_none());
            assert_eq!(d.quantity, 1);
            let eth: f64 = d.payment_token.eth_price.as_str().parse().unwrap();
            assert_eq!(eth, 1.0);
        },
        _ => panic!("wrong payload kind"),
    }
}

#[test]
fn maker_address_case_normalizes_to_the_same_bytes() {
    let upper = "0xAbCdAbCdAbCdAbCdAbCdAbCdAbCdAbCd12341234";
    let doc = envelope(
        "item_listed",
        {
            let mut entries = context();
            entries.extend(vec![
                ("event_timestamp", jstr("2022-04-06T11:59:59+00:00")),
                ("base_price", jstr("1000000000000000000")),
                ("expiration_date", jstr("2022-05-06T11:59:59+00:00")),
                ("is_private", Json::Bool(false)),
                ("listing_date", jstr("2022-04-06T11:59:58+00:00")),
                ("listing_type", jstr("english")),
                ("maker", wrapped(upper)),
                ("payment_token", payment_token()),
                ("quantity", jnum("1")),
                ("taker", Json::Null),
            ]);
            jobj(entries)
        },
    );
    let ev = decode_stream_event(&doc).unwrap();
    match &ev.payload {
        Payload::ItemListed(d) => assert_eq!(d.maker.to_hex_string(), MAKER),
        _ => panic!("wrong payload kind"),
    }
}

#[test]
fn round_trip_item_listed() {
    assert_round_trips(&envelope("item_listed", listed_payload(jstr("english"), Json::Null)));
}

#[test]
fn round_trip_item_sold() {
    assert_round_trips(&envelope("item_sold", sold_payload()));
}

#[test]
fn round_trip_item_transferred() {
    assert_round_trips(&envelope("item_transferred", transferred_payload()));
}

#[test]
fn round_trip_item_metadata_updated() {
    assert_round_trips(&envelope("item_metadata_updated", metadata_updated_payload()));
}

#[test]
fn round_trip_item_cancelled() {
    assert_round_trips(&envelope("item_cancelled", cancelled_payload()));
}

#[test]
fn round_trip_item_received_offer() {
    assert_round_trips(&envelope("item_received_offer", offer_payload(Json::Null)));
}

#[test]
fn round_trip_item_received_bid() {
    assert_round_trips(&envelope("item_received_bid", offer_payload(wrapped(TAKER))));
}

#[test]
fn decode_ignores_extra_keys_and_field_order() {
    let doc = envelope("item_sold", sold_payload());
    let shuffled = match doc {
        Json::Obj(mut entries) => {
            entries.reverse();
            entries.push(("extra".to_string(), jstr("ignored")));
            Json::Obj(entries)
        },
        _ => unreachable!(),
    };
    let ev = decode_stream_event(&shuffled).unwrap();
    assert!(matches!(ev.payload, Payload::ItemSold(_)));
}

#[test]
fn listing_type_absent_and_null_are_indistinguishable() {
    let absent = {
        let mut entries = context();
        entries.extend(vec![
            ("event_timestamp", jstr("2022-04-06T11:59:59+00:00")),
            ("base_price", jstr("1000000000000000000")),
            ("expiration_date", jstr("2022-05-06T11:59:59+00:00")),
            ("is_private", Json::Bool(false)),
            ("listing_date", jstr("2022-04-06T11:59:58+00:00")),
            ("maker", wrapped(MAKER)),
            ("payment_token", payment_token()),
            ("quantity", jnum("1")),
            ("taker", Json::Null),
        ]);
        jobj(entries)
    };
    let with_null = listed_payload(Json::Null, Json::Null);
    let ev_absent = decode_stream_event(&envelope("item_listed", absent)).unwrap();
    let ev_null = decode_stream_event(&envelope("item_listed", with_null)).unwrap();
    match (&ev_absent.payload, &ev_null.payload) {
        (Payload::ItemListed(a), Payload::ItemListed(b)) => {
            assert!(a.listing_type.is_none());
            assert!(b.listing_type.is_none());
        },
        _ => panic!("wrong payload kind"),
    }
    // Indistinguishable afterward: both re-encode to the same document.
    let out_a = encode_stream_event(&ev_absent);
    let out_b = encode_stream_event(&ev_null);
    assert!(json_eq(&out_a, &out_b));
}

#[test]
fn price_accepts_string_and_number_alike() {
    let as_string = envelope("item_listed", listed_payload(jstr("english"), Json::Null));
    let as_number = {
        let with_num = {
            let mut entries = context();
            entries.extend(vec![
                ("event_timestamp", jstr("2022-04-06T11:59:59+00:00")),
                ("base_price", jstr("1000000000000000000")),
                ("expiration_date", jstr("2022-05-06T11:59:59+00:00")),
                ("is_private", Json::Bool(false)),
                ("listing_date", jstr("2022-04-06T11:59:58+00:00")),
                ("listing_type", jstr("english")),
                ("maker", wrapped(MAKER)),
                (
                    "payment_token",
                    jobj(vec![
                        ("address", jstr(TOKEN)),
                        ("decimals", jnum("18")),
                        ("eth_price", jnum("1.0")),
                        ("name", jstr("Wrapped Ether")),
                        ("symbol", jstr("WETH")),
                        ("usd_price", jnum("1776.25")),
                    ]),
                ),
                ("quantity", jnum("1")),
                ("taker", Json::Null),
            ]);
            jobj(entries)
        };
        envelope("item_listed", with_num)
    };
    let ev_s = decode_stream_event(&as_string).unwrap();
    let ev_n = decode_stream_event(&as_number).unwrap();
    match (&ev_s.payload, &ev_n.payload) {
        (Payload::ItemListed(a), Payload::ItemListed(b)) => {
            assert_eq!(a.payment_token.eth_price.as_str(), "1.0");
            assert_eq!(b.payment_token.eth_price.as_str(), "1.0");
            let x: f64 = a.payment_token.eth_price.as_str().parse().unwrap();
            let y: f64 = b.payment_token.eth_price.as_str().parse().unwrap();
            assert_eq!(x, y);
            assert_eq!(x, 1.0);
        },
        _ => panic!("wrong payload kind"),
    }
    // Encoding always emits the string form, whichever arrived.
    let out = encode_stream_event(&ev_n);
    assert!(json_eq(&out, &as_string));
}

#[test]
fn eth_price_number_and_string_share_the_text_form() {
    let a = decode_stream_event(&envelope("item_listed", listed_payload(jstr("english"), Json::Null)))
        .unwrap();
    let out = encode_stream_event(&a);
    match out {
        Json::Obj(entries) => {
            assert_eq!(entries[1].0, "event_type");
            assert!(matches!(&entries[1].1, Json::Str(s) if s == "item_listed"));
        },
        _ => panic!("encoded document is not an object"),
    }
}

#[test]
fn item_sold_without_taker_fails_with_missing_field() {
    let payload = {
        let mut entries = context();
        entries.extend(vec![
            ("event_timestamp", jstr("2022-04-06T11:59:59+00:00")),
            ("closing_date", jstr("2022-04-07T11:59:59+00:00")),
            ("is_private", Json::Bool(false)),
            ("listing_type", Json::Null),
            ("maker", wrapped(MAKER)),
            ("payment_token", payment_token()),
            ("quantity", jnum("1")),
            ("sale_price", jstr("250000000000000000")),
            ("transaction", transaction()),
        ]);
        jobj(entries)
    };
    let e = decode_stream_event(&envelope("item_sold", payload)).unwrap_err();
    assert_eq!(e.kind, ErrorKind::MissingRequiredField);
    assert_eq!(e.field, "taker");
}

#[test]
fn taker_is_optional_for_listed_offer_and_bid() {
    let listed = match listed_payload(jstr("english"), Json::Null) {
        Json::Obj(mut entries) => {
            entries.retain(|(k, _)| k != "taker");
            Json::Obj(entries)
        },
        _ => unreachable!(),
    };
    let ev = decode_stream_event(&envelope("item_listed", listed)).unwrap();
    match &ev.payload {
        Payload::ItemListed(d) => assert!(d.taker.is_none()),
        _ => panic!("wrong payload kind"),
    }
    let offer = match offer_payload(Json::Null) {
        Json::Obj(mut entries) => {
            entries.retain(|(k, _)| k != "taker");
            Json::Obj(entries)
        },
        _ => unreachable!(),
    };
    let ev = decode_stream_event(&envelope("item_received_offer", offer)).unwrap();
    match &ev.payload {
        Payload::ItemReceivedOffer(d) => assert!(d.taker.is_none()),
        _ => panic!("wrong payload kind"),
    }
}

#[test]
fn unknown_event_type_is_rejected() {
    let e = decode_stream_event(&envelope("item_minted", sold_payload())).unwrap_err();
    assert_eq!(e.kind, ErrorKind::MalformedEnvelope);
}

#[test]
fn tag_and_payload_shape_must_agree() {
    // A transferred payload under the sold tag lacks sold's fields.
    let e = decode_stream_event(&envelope("item_sold", transferred_payload())).unwrap_err();
    assert_eq!(e.kind, ErrorKind::MissingRequiredField);
}

#[test]
fn missing_sent_at_is_a_malformed_envelope() {
    let doc = jobj(vec![
        ("event_type", jstr("item_sold")),
        ("payload", sold_payload()),
    ]);
    let e = decode_stream_event(&doc).unwrap_err();
    assert_eq!(e.kind, ErrorKind::MalformedEnvelope);
}

#[test]
fn non_object_document_is_rejected() {
    let e = decode_stream_event(&jstr("[]")).unwrap_err();
    assert_eq!(e.kind, ErrorKind::MalformedEnvelope);
}

#[test]
fn traits_default_to_empty_when_absent() {
    let payload = {
        let mut entries = context();
        entries.extend(vec![
            ("name", Json::Null),
            ("description", Json::Null),
            ("image_preview_url", Json::Null),
            ("animation_url", Json::Null),
            ("background_color", Json::Null),
            ("metadata_url", Json::Null),
        ]);
        jobj(entries)
    };
    let ev = decode_stream_event(&envelope("item_metadata_updated", payload)).unwrap();
    match &ev.payload {
        Payload::ItemMetadataUpdated(d) => assert!(d.traits.is_empty()),
        _ => panic!("wrong payload kind"),
    }
}
