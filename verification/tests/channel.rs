use opensea_stream::{decode_stream_event, Collection, Event, Json, Network};

#[test]
fn collection_writes_its_channel_topic() {
    let c = Collection::Collection("wandernauts".to_string());
    assert_eq!(c.to_channel_string(), "collection:wandernauts");
    assert_eq!(Collection::All.to_channel_string(), "collection:*");
}

#[test]
fn collection_reads_a_channel_topic_back() {
    assert_eq!(
        Collection::from_channel_string("collection:wandernauts"),
        Some(Collection::Collection("wandernauts".to_string()))
    );
    assert_eq!(Collection::from_channel_string("collection:*"), Some(Collection::All));
    assert_eq!(Collection::from_channel_string("collection:"), Some(Collection::Collection(String::new())));
    assert_eq!(Collection::from_channel_string("wandernauts"), None);
    assert_eq!(Collection::from_channel_string(""), None);
}

#[test]
fn collection_topic_round_trips() {
    for c in [Collection::Collection("doodles-official".to_string()), Collection::All] {
        let topic = c.to_channel_string();
        assert_eq!(Collection::from_channel_string(&topic), Some(c));
    }
}

#[test]
fn network_socket_urls() {
    assert_eq!(
        Network::Mainnet.socket_url(),
        "wss://stream.openseabeta.com/socket/websocket"
    );
    assert_eq!(
        Network::Testnet.socket_url(),
        "wss://testnets-stream.openseabeta.com/socket/websocket"
    );
}

#[test]
fn event_names_map_both_ways() {
    let all = [
        (Event::ItemListed, "item_listed"),
        (Event::ItemSold, "item_sold"),
        (Event::ItemTransferred, "item_transferred"),
        (Event::ItemMetadataUpdated, "item_metadata_updated"),
        (Event::ItemCancelled, "item_cancelled"),
        (Event::ItemReceivedOffer, "item_received_offer"),
        (Event::ItemReceivedBid, "item_received_bid"),
    ];
    for (event, name) in all {
        assert_eq!(event.name(), name);
        assert_eq!(Event::from_name(name), Some(event));
    }
    assert_eq!(Event::from_name("item_minted"), None);
}

#[test]
fn event_of_a_decoded_payload_matches_its_tag() {
    let doc = Json::Obj(vec![
        ("sent_at".to_string(), Json::Str("2022-04-06T12:00:01+00:00".to_string())),
        ("event_type".to_string(), Json::Str("item_metadata_updated".to_string())),
        (
            "payload".to_string(),
            Json::Obj(vec![
                (
                    "collection".to_string(),
                    Json::Obj(vec![("slug".to_string(), Json::Str("wandernauts".to_string()))]),
                ),
                (
                    "item".to_string(),
                    Json::Obj(vec![
                        (
                            "nft_id".to_string(),
                            Json::Str(
                                "ethereum/0x1234567890abcdef1234567890abcdef12345678/7"
                                    .to_string(),
                            ),
                        ),
                        (
                            "permalink".to_string(),
                            Json::Str("https://opensea.io/assets/0x1234/7".to_string()),
                        ),
                        (
                            "chain".to_string(),
                            Json::Obj(vec![("name".to_string(), Json::Str("ethereum".to_string()))]),
                        ),
                        (
                            "metadata".to_string(),
                            Json::Obj(vec![]),
                        ),
                    ]),
                ),
            ]),
        ),
    ]);
    let ev = decode_stream_event(&doc).unwrap();
    assert_eq!(Event::from_payload(&ev.payload), Event::ItemMetadataUpdated);
}
