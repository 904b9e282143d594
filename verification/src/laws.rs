//! The laws of the codec: decoding inverts encoding for every well-formed
//! value of every event kind, and every decoded value is well formed.
//!
//! Each public proof function here states one such law over the spec
//! functions of [`crate::codec`]; the executable decoder and encoder are
//! proved against those same functions, so the laws carry over to them.

use vstd::prelude::*;

use crate::address::{hex_0x_text, lemma_hex_parse_round_trip};
use crate::chain::{chain_name, lemma_chain_name_round_trip, lemma_listing_type_round_trip};
use crate::codec::{dec_bid_v, dec_cancelled_v, dec_context_v, dec_item_obj, dec_listed_v,
    dec_metadata_obj, dec_metadata_updated_v, dec_nft_id_text, dec_offer_v,
    dec_payment_token_obj, dec_payload_v, dec_sold_v, dec_stream_event_v, dec_transaction_obj,
    dec_transferred_v, enc_addr, enc_bid_entries, enc_cancelled_entries, enc_chain,
    enc_collection, enc_item, enc_listed_entries, enc_metadata,
    enc_metadata_updated_entries, enc_offer_entries, enc_payload_entries, enc_payment_token,
    enc_sold_entries, enc_stream_event_v, enc_transaction, enc_transferred_entries, nft_id_text,
    payload_tag};
use crate::error::ErrorKind;
use crate::json::{key_index, lemma_key_index, obj_lookup, JsonV};
use crate::schema::{bid_wf, cancelled_wf, context_wf, item_wf, listed_wf, metadata_updated_wf,
    metadata_wf, nft_id_wf, offer_wf, payload_wf, payment_token_wf, sold_wf, stream_event_wf,
    transaction_wf, transferred_wf, ContextV, ItemCancelledDataV, ItemListedDataV,
    ItemMetadataUpdatedDataV, ItemReceivedBidDataV, ItemReceivedOfferDataV, ItemSoldDataV,
    ItemTransferredDataV, ItemV, MetadataV, NftIdV, PayloadV, PaymentTokenV, StreamEventV,
    TransactionV};
use crate::text::{find_char, hex_char, lemma_find_char, lemma_u64_dec_round_trip};
use crate::u256::{lemma_u256_round_trip, u256_canonical};

verus! {

/// An object looks a key up to the first entry that carries it.
proof fn lemma_lookup_at(s: Seq<(Seq<char>, JsonV)>, i: int)
    requires
        0 <= i < s.len(),
        forall|j: int| 0 <= j < i ==> s[j].0 != s[i].0,
    ensures
        obj_lookup(s, s[i].0) == Some(s[i].1),
{
    let k = s[i].0;
    lemma_key_index(s, k, 0);
    match key_index(s, k, 0) {
        Some(i2) => {
            if i2 < i {
            } else if i2 > i {
                assert(s[i].0 != k);
            }
        },
        None => {
            assert(s[i].0 != k);
        },
    }
}

/// The field names and discriminant tags this codec writes are pairwise
/// distinct wherever they share an object.
proof fn lemma_key_distinct()
    ensures
        "address"@ != "decimals"@,
        "address"@ != "eth_price"@,
        "address"@ != "name"@,
        "address"@ != "symbol"@,
        "address"@ != "usd_price"@,
        "animation_url"@ != "background_color"@,
        "animation_url"@ != "collection"@,
        "animation_url"@ != "description"@,
        "animation_url"@ != "image_preview_url"@,
        "animation_url"@ != "image_url"@,
        "animation_url"@ != "item"@,
        "animation_url"@ != "metadata_url"@,
        "animation_url"@ != "name"@,
        "animation_url"@ != "traits"@,
        "background_color"@ != "collection"@,
        "background_color"@ != "description"@,
        "background_color"@ != "image_preview_url"@,
        "background_color"@ != "item"@,
        "background_color"@ != "metadata_url"@,
        "background_color"@ != "name"@,
        "background_color"@ != "traits"@,
        "base_price"@ != "collection"@,
        "base_price"@ != "created_date"@,
        "base_price"@ != "event_timestamp"@,
        "base_price"@ != "expiration_date"@,
        "base_price"@ != "is_private"@,
        "base_price"@ != "item"@,
        "base_price"@ != "listing_date"@,
        "base_price"@ != "listing_type"@,
        "base_price"@ != "maker"@,
        "base_price"@ != "payment_token"@,
        "base_price"@ != "quantity"@,
        "base_price"@ != "taker"@,
        "chain"@ != "metadata"@,
        "chain"@ != "nft_id"@,
        "chain"@ != "permalink"@,
        "closing_date"@ != "collection"@,
        "closing_date"@ != "event_timestamp"@,
        "closing_date"@ != "is_private"@,
        "closing_date"@ != "item"@,
        "closing_date"@ != "listing_type"@,
        "closing_date"@ != "maker"@,
        "closing_date"@ != "payment_token"@,
        "closing_date"@ != "quantity"@,
        "closing_date"@ != "sale_price"@,
        "closing_date"@ != "taker"@,
        "closing_date"@ != "transaction"@,
        "collection"@ != "created_date"@,
        "collection"@ != "description"@,
        "collection"@ != "event_timestamp"@,
        "collection"@ != "expiration_date"@,
        "collection"@ != "from_account"@,
        "collection"@ != "image_preview_url"@,
        "collection"@ != "is_private"@,
        "collection"@ != "item"@,
        "collection"@ != "listing_date"@,
        "collection"@ != "listing_type"@,
        "collection"@ != "maker"@,
        "collection"@ != "metadata_url"@,
        "collection"@ != "name"@,
        "collection"@ != "payment_token"@,
        "collection"@ != "quantity"@,
        "collection"@ != "sale_price"@,
        "collection"@ != "taker"@,
        "collection"@ != "to_account"@,
        "collection"@ != "traits"@,
        "collection"@ != "transaction"@,
        "created_date"@ != "event_timestamp"@,
        "created_date"@ != "expiration_date"@,
        "created_date"@ != "item"@,
        "created_date"@ != "maker"@,
        "created_date"@ != "payment_token"@,
        "created_date"@ != "quantity"@,
        "created_date"@ != "taker"@,
        "decimals"@ != "eth_price"@,
        "decimals"@ != "name"@,
        "decimals"@ != "symbol"@,
        "decimals"@ != "usd_price"@,
        "description"@ != "image_preview_url"@,
        "description"@ != "image_url"@,
        "description"@ != "item"@,
        "description"@ != "metadata_url"@,
        "description"@ != "name"@,
        "description"@ != "traits"@,
        "eth_price"@ != "name"@,
        "eth_price"@ != "symbol"@,
        "eth_price"@ != "usd_price"@,
        "event_timestamp"@ != "expiration_date"@,
        "event_timestamp"@ != "from_account"@,
        "event_timestamp"@ != "is_private"@,
        "event_timestamp"@ != "item"@,
        "event_timestamp"@ != "listing_date"@,
        "event_timestamp"@ != "listing_type"@,
        "event_timestamp"@ != "maker"@,
        "event_timestamp"@ != "payment_token"@,
        "event_timestamp"@ != "quantity"@,
        "event_timestamp"@ != "sale_price"@,
        "event_timestamp"@ != "taker"@,
        "event_timestamp"@ != "to_account"@,
        "event_timestamp"@ != "transaction"@,
        "event_type"@ != "payload"@,
        "event_type"@ != "sent_at"@,
        "expiration_date"@ != "is_private"@,
        "expiration_date"@ != "item"@,
        "expiration_date"@ != "listing_date"@,
        "expiration_date"@ != "listing_type"@,
        "expiration_date"@ != "maker"@,
        "expiration_date"@ != "payment_token"@,
        "expiration_date"@ != "quantity"@,
        "expiration_date"@ != "taker"@,
        "from_account"@ != "item"@,
        "from_account"@ != "quantity"@,
        "from_account"@ != "to_account"@,
        "from_account"@ != "transaction"@,
        "hash"@ != "timestamp"@,
        "image_preview_url"@ != "item"@,
        "image_preview_url"@ != "metadata_url"@,
        "image_preview_url"@ != "name"@,
        "image_preview_url"@ != "traits"@,
        "image_url"@ != "metadata_url"@,
        "image_url"@ != "name"@,
        "is_private"@ != "item"@,
        "is_private"@ != "listing_date"@,
        "is_private"@ != "listing_type"@,
        "is_private"@ != "maker"@,
        "is_private"@ != "payment_token"@,
        "is_private"@ != "quantity"@,
        "is_private"@ != "sale_price"@,
        "is_private"@ != "taker"@,
        "is_private"@ != "transaction"@,
        "item"@ != "listing_date"@,
        "item"@ != "listing_type"@,
        "item"@ != "maker"@,
        "item"@ != "metadata_url"@,
        "item"@ != "name"@,
        "item"@ != "payment_token"@,
        "item"@ != "quantity"@,
        "item"@ != "sale_price"@,
        "item"@ != "taker"@,
        "item"@ != "to_account"@,
        "item"@ != "traits"@,
        "item"@ != "transaction"@,
        "item_cancelled"@ != "item_listed"@,
        "item_cancelled"@ != "item_metadata_updated"@,
        "item_cancelled"@ != "item_received_bid"@,
        "item_cancelled"@ != "item_received_offer"@,
        "item_cancelled"@ != "item_sold"@,
        "item_cancelled"@ != "item_transferred"@,
        "item_listed"@ != "item_metadata_updated"@,
        "item_listed"@ != "item_received_bid"@,
        "item_listed"@ != "item_received_offer"@,
        "item_listed"@ != "item_sold"@,
        "item_listed"@ != "item_transferred"@,
        "item_metadata_updated"@ != "item_received_bid"@,
        "item_metadata_updated"@ != "item_received_offer"@,
        "item_metadata_updated"@ != "item_sold"@,
        "item_metadata_updated"@ != "item_transferred"@,
        "item_received_bid"@ != "item_received_offer"@,
        "item_received_bid"@ != "item_sold"@,
        "item_received_bid"@ != "item_transferred"@,
        "item_received_offer"@ != "item_sold"@,
        "item_received_offer"@ != "item_transferred"@,
        "item_sold"@ != "item_transferred"@,
        "listing_date"@ != "listing_type"@,
        "listing_date"@ != "maker"@,
        "listing_date"@ != "payment_token"@,
        "listing_date"@ != "quantity"@,
        "listing_date"@ != "taker"@,
        "listing_type"@ != "maker"@,
        "listing_type"@ != "payment_token"@,
        "listing_type"@ != "quantity"@,
        "listing_type"@ != "sale_price"@,
        "listing_type"@ != "taker"@,
        "listing_type"@ != "transaction"@,
        "maker"@ != "payment_token"@,
        "maker"@ != "quantity"@,
        "maker"@ != "sale_price"@,
        "maker"@ != "taker"@,
        "maker"@ != "transaction"@,
        "metadata"@ != "nft_id"@,
        "metadata"@ != "permalink"@,
        "metadata_url"@ != "name"@,
        "metadata_url"@ != "traits"@,
        "name"@ != "symbol"@,
        "name"@ != "traits"@,
        "name"@ != "usd_price"@,
        "nft_id"@ != "permalink"@,
        "payload"@ != "sent_at"@,
        "payment_token"@ != "quantity"@,
        "payment_token"@ != "sale_price"@,
        "payment_token"@ != "taker"@,
        "payment_token"@ != "transaction"@,
        "quantity"@ != "sale_price"@,
        "quantity"@ != "taker"@,
        "quantity"@ != "to_account"@,
        "quantity"@ != "transaction"@,
        "sale_price"@ != "taker"@,
        "sale_price"@ != "transaction"@,
        "symbol"@ != "usd_price"@,
        "taker"@ != "transaction"@,
        "to_account"@ != "transaction"@,
{
    reveal_strlit("address");
    reveal_strlit("animation_url");
    reveal_strlit("background_color");
    reveal_strlit("base_price");
    reveal_strlit("chain");
    reveal_strlit("closing_date");
    reveal_strlit("collection");
    reveal_strlit("created_date");
    reveal_strlit("decimals");
    reveal_strlit("description");
    reveal_strlit("eth_price");
    reveal_strlit("event_timestamp");
    reveal_strlit("event_type");
    reveal_strlit("expiration_date");
    reveal_strlit("from_account");
    reveal_strlit("hash");
    reveal_strlit("image_preview_url");
    reveal_strlit("image_url");
    reveal_strlit("is_private");
    reveal_strlit("item");
    reveal_strlit("item_cancelled");
    reveal_strlit("item_listed");
    reveal_strlit("item_metadata_updated");
    reveal_strlit("item_received_bid");
    reveal_strlit("item_received_offer");
    reveal_strlit("item_sold");
    reveal_strlit("item_transferred");
    reveal_strlit("listing_date");
    reveal_strlit("listing_type");
    reveal_strlit("maker");
    reveal_strlit("metadata");
    reveal_strlit("metadata_url");
    reveal_strlit("name");
    reveal_strlit("nft_id");
    reveal_strlit("payload");
    reveal_strlit("payment_token");
    reveal_strlit("permalink");
    reveal_strlit("quantity");
    reveal_strlit("sale_price");
    reveal_strlit("sent_at");
    reveal_strlit("symbol");
    reveal_strlit("taker");
    reveal_strlit("timestamp");
    reveal_strlit("to_account");
    reveal_strlit("traits");
    reveal_strlit("transaction");
    reveal_strlit("usd_price");
    assert("address"@.len() == 7 && "animation_url"@.len() == 13 && "background_color"@.len() == 16 && "base_price"@.len() == 10);
    assert("chain"@.len() == 5 && "closing_date"@.len() == 12 && "collection"@.len() == 10 && "created_date"@.len() == 12);
    assert("decimals"@.len() == 8 && "description"@.len() == 11 && "eth_price"@.len() == 9 && "event_timestamp"@.len() == 15);
    assert("event_type"@.len() == 10 && "expiration_date"@.len() == 15 && "from_account"@.len() == 12 && "hash"@.len() == 4);
    assert("image_preview_url"@.len() == 17 && "image_url"@.len() == 9 && "is_private"@.len() == 10 && "item"@.len() == 4);
    assert("item_cancelled"@.len() == 14 && "item_listed"@.len() == 11 && "item_metadata_updated"@.len() == 21 && "item_received_bid"@.len() == 17);
    assert("item_received_offer"@.len() == 19 && "item_sold"@.len() == 9 && "item_transferred"@.len() == 16 && "listing_date"@.len() == 12);
    assert("listing_type"@.len() == 12 && "maker"@.len() == 5 && "metadata"@.len() == 8 && "metadata_url"@.len() == 12);
    assert("name"@.len() == 4 && "nft_id"@.len() == 6 && "payload"@.len() == 7 && "payment_token"@.len() == 13);
    assert("permalink"@.len() == 9 && "quantity"@.len() == 8 && "sale_price"@.len() == 10 && "sent_at"@.len() == 7);
    assert("symbol"@.len() == 6 && "taker"@.len() == 5 && "timestamp"@.len() == 9 && "to_account"@.len() == 10);
    assert("traits"@.len() == 6 && "transaction"@.len() == 11 && "usd_price"@.len() == 9);
    assert("base_price"@[0] == 'b' && "closing_date"@[0] == 'c' && "collection"@[0] == 'c' && "eth_price"@[0] == 'e');
    assert("event_timestamp"@[1] == 'v' && "expiration_date"@[1] == 'x' && "is_private"@[0] == 'i' && "item"@[0] == 'i');
    assert("listing_date"@[8] == 'd' && "listing_type"@[0] == 'l' && "listing_type"@[8] == 't' && "maker"@[0] == 'm');
    assert("name"@[0] == 'n' && "payload"@[0] == 'p' && "sale_price"@[0] == 's' && "sent_at"@[0] == 's');
    assert("taker"@[0] == 't' && "to_account"@[0] == 't' && "usd_price"@[0] == 'u');
}

/// The hexadecimal text of a byte string never contains a separator.
proof fn lemma_hex_text_no_slash(b: Seq<u8>)
    ensures
        forall|i: int| 0 <= i < hex_0x_text(b).len() ==> #[trigger] hex_0x_text(b)[i] != '/',
{
    assert forall|i: int| 0 <= i < hex_0x_text(b).len() implies #[trigger] hex_0x_text(b)[i]
        != '/' by {
        if i >= 2 {
            let v = if (i - 2) % 2 == 0 {
                b[(i - 2) / 2] as int / 16
            } else {
                b[(i - 2) / 2] as int % 16
            };
            assert(0 <= v < 16);
            assert(hex_0x_text(b)[i] == hex_char(v));
        }
    }
}

/// Composite identifiers round-trip: the encoded string of a well-formed
/// identifier decodes back to it, because chain names and hexadecimal
/// digits contain no separator.
pub proof fn lemma_nft_id_round_trip(n: NftIdV)
    ensures
        nft_id_wf(n) ==> dec_nft_id_text(nft_id_text(n)) == Ok::<NftIdV, ErrorKind>(n),
{
    if nft_id_wf(n) {
        let cn = chain_name(n.network);
        let hx = hex_0x_text(n.address);
        let t = nft_id_text(n);
        lemma_chain_name_round_trip(n.network);
        lemma_hex_text_no_slash(n.address);
        let p1 = cn.len() as int;
        let p2 = cn.len() + 1 + hx.len();
        assert(t.len() == cn.len() + 1 + hx.len() + 1 + n.id.len());
        assert(t[p1] == '/');
        assert(t[p2 as int] == '/');
        assert(forall|j: int| 0 <= j < p1 ==> t[j] == cn[j] && #[trigger] t[j] != '/');
        assert forall|j: int| p1 < j < p2 implies #[trigger] t[j] != '/' by {
            assert(t[j] == hx[j - p1 - 1]);
        }
        lemma_find_char(t, '/', 0);
        match find_char(t, '/', 0) {
            None => {
                assert(t[p1] != '/');
            },
            Some(i) => {
                assert(i <= p1);
                if i < p1 {
                    assert(t[i] != '/');
                }
                assert(i == p1);
                lemma_find_char(t, '/', i + 1);
                match find_char(t, '/', i + 1) {
                    None => {
                        assert(t[p2 as int] != '/');
                    },
                    Some(j) => {
                        assert(j <= p2);
                        if j < p2 {
                            assert(t[j] != '/');
                        }
                        assert(j == p2);
                        assert(t.take(i) =~= cn);
                        assert(t.subrange(i + 1, j) =~= hx);
                        assert(t.skip(j + 1) =~= n.id);
                        lemma_hex_parse_round_trip(n.address);
                        lemma_u256_round_trip(n.id);
                    },
                }
            },
        }
    }
}

/// A wrapped address object round-trips.
proof fn lemma_wrapped_addr_round_trip(b: Seq<u8>)
    requires
        b.len() == 20,
    ensures
        crate::codec::dec_wrapped_addr_v(enc_addr(b)) == Ok::<Seq<u8>, ErrorKind>(b),
{
    let s = enc_addr(b)->Obj_0;
    assert(s[0] == ("address"@, JsonV::Str(hex_0x_text(b))));
    lemma_lookup_at(s, 0);
    lemma_hex_parse_round_trip(b);
}

/// The metadata object round-trips.
pub proof fn lemma_metadata_round_trip(m: MetadataV)
    ensures
        metadata_wf(m) ==> dec_metadata_obj(enc_metadata(m)->Obj_0) == Ok::<MetadataV, ErrorKind>(
            m,
        ),
{
    if metadata_wf(m) {
        lemma_key_distinct();
        let s = enc_metadata(m)->Obj_0;
        assert(s.len() == 5);
        assert(s[0] == ("name"@, crate::codec::enc_opt_str(m.name)));
        assert(s[1] == ("description"@, crate::codec::enc_opt_str(m.description)));
        assert(s[2] == ("image_url"@, crate::codec::enc_opt_str(m.image_url)));
        assert(s[3] == ("animation_url"@, crate::codec::enc_opt_str(m.animation_url)));
        assert(s[4] == ("metadata_url"@, crate::codec::enc_opt_str(m.metadata_url)));
        lemma_lookup_at(s, 0);
        lemma_lookup_at(s, 1);
        lemma_lookup_at(s, 2);
        lemma_lookup_at(s, 3);
        lemma_lookup_at(s, 4);
    }
}

/// The payment-token object round-trips.
pub proof fn lemma_payment_token_round_trip(p: PaymentTokenV)
    ensures
        payment_token_wf(p) ==> dec_payment_token_obj(enc_payment_token(p)->Obj_0) == Ok::<
            PaymentTokenV,
            ErrorKind,
        >(p),
{
    if payment_token_wf(p) {
        lemma_key_distinct();
        let s = enc_payment_token(p)->Obj_0;
        assert(s.len() == 6);
        assert(s[0] == ("address"@, JsonV::Str(hex_0x_text(p.address))));
        assert(s[1] == ("decimals"@, JsonV::Num(crate::text::dec_text(p.decimals as int))));
        assert(s[2] == ("eth_price"@, JsonV::Str(p.eth_price)));
        assert(s[3] == ("name"@, JsonV::Str(p.name)));
        assert(s[4] == ("symbol"@, JsonV::Str(p.symbol)));
        assert(s[5] == ("usd_price"@, JsonV::Str(p.usd_price)));
        lemma_lookup_at(s, 0);
        lemma_lookup_at(s, 1);
        lemma_lookup_at(s, 2);
        lemma_lookup_at(s, 3);
        lemma_lookup_at(s, 4);
        lemma_lookup_at(s, 5);
        lemma_hex_parse_round_trip(p.address);
        lemma_u64_dec_round_trip(p.decimals);
    }
}

/// The transaction object round-trips.
pub proof fn lemma_transaction_round_trip(t: TransactionV)
    ensures
        transaction_wf(t) ==> dec_transaction_obj(enc_transaction(t)->Obj_0) == Ok::<
            TransactionV,
            ErrorKind,
        >(t),
{
    if transaction_wf(t) {
        lemma_key_distinct();
        let s = enc_transaction(t)->Obj_0;
        assert(s.len() == 2);
        assert(s[0] == ("hash"@, JsonV::Str(hex_0x_text(t.hash))));
        assert(s[1] == ("timestamp"@, JsonV::Str(t.timestamp.text)));
        lemma_lookup_at(s, 0);
        lemma_lookup_at(s, 1);
        lemma_hex_parse_round_trip(t.hash);
    }
}

/// The item object round-trips.
pub proof fn lemma_item_round_trip(i: ItemV)
    ensures
        item_wf(i) ==> dec_item_obj(enc_item(i)->Obj_0) == Ok::<ItemV, ErrorKind>(i),
{
    if item_wf(i) {
        lemma_key_distinct();
        let s = enc_item(i)->Obj_0;
        assert(s.len() == 4);
        assert(s[0] == ("nft_id"@, JsonV::Str(nft_id_text(i.nft_id))));
        assert(s[1] == ("permalink"@, JsonV::Str(i.permalink)));
        assert(s[2] == ("chain"@, enc_chain(i.chain)));
        assert(s[3] == ("metadata"@, enc_metadata(i.metadata)));
        lemma_lookup_at(s, 0);
        lemma_lookup_at(s, 1);
        lemma_lookup_at(s, 2);
        lemma_lookup_at(s, 3);
        lemma_nft_id_round_trip(i.nft_id);
        let cs = enc_chain(i.chain)->Obj_0;
        assert(cs[0] == ("name"@, JsonV::Str(chain_name(i.chain))));
        lemma_lookup_at(cs, 0);
        lemma_chain_name_round_trip(i.chain);
        lemma_metadata_round_trip(i.metadata);
    }
}

/// The flattened context entries decode back to the context, whatever
/// entries follow them.
proof fn lemma_context_round_trip_in(s: Seq<(Seq<char>, JsonV)>, c: ContextV)
    requires
        context_wf(c),
        s.len() >= 2,
        s[0] == ("collection"@, enc_collection(c.collection)),
        s[1] == ("item"@, enc_item(c.item)),
        forall|j: int| 2 <= j < s.len() ==> #[trigger] s[j].0 != "collection"@ && s[j].0
            != "item"@,
    ensures
        dec_context_v(s) == Ok::<ContextV, ErrorKind>(c),
{
    lemma_key_distinct();
    lemma_lookup_at(s, 0);
    lemma_lookup_at(s, 1);
    let cs = enc_collection(c.collection)->Obj_0;
    assert(cs[0] == ("slug"@, JsonV::Str(c.collection)));
    lemma_lookup_at(cs, 0);
    lemma_item_round_trip(c.item);
}


/// Decoding inverts encoding for this event kind.
pub proof fn lemma_listed_round_trip(d: ItemListedDataV)
    ensures
        listed_wf(d) ==> dec_listed_v(enc_listed_entries(d)) == Ok::<ItemListedDataV, ErrorKind>(d),
{
    if listed_wf(d) {
        lemma_key_distinct();
        let s = enc_listed_entries(d);
        assert(s.len() == 12);
        assert(s[0] == ("collection"@, enc_collection(d.context.collection)));
        assert(s[1] == ("item"@, enc_item(d.context.item)));
        assert(s[2] == ("event_timestamp"@, JsonV::Str(d.event_timestamp.text)));
        assert(s[3] == ("base_price"@, JsonV::Str(d.base_price)));
        assert(s[4] == ("expiration_date"@, JsonV::Str(d.expiration_date.text)));
        assert(s[5] == ("is_private"@, JsonV::Bool(d.is_private)));
        assert(s[6] == ("listing_date"@, JsonV::Str(d.listing_date.text)));
        assert(s[7] == ("listing_type"@, crate::codec::enc_listing_opt(d.listing_type)));
        assert(s[8] == ("maker"@, enc_addr(d.maker)));
        assert(s[9] == ("payment_token"@, enc_payment_token(d.payment_token)));
        assert(s[10] == ("quantity"@, JsonV::Num(crate::text::dec_text(d.quantity as int))));
        assert(s[11] == ("taker"@, crate::codec::enc_addr_opt(d.taker)));
        lemma_context_round_trip_in(s, d.context);
        lemma_lookup_at(s, 2);
        lemma_lookup_at(s, 3);
        lemma_lookup_at(s, 4);
        lemma_lookup_at(s, 5);
        lemma_lookup_at(s, 6);
        lemma_lookup_at(s, 7);
        lemma_lookup_at(s, 8);
        lemma_lookup_at(s, 9);
        lemma_lookup_at(s, 10);
        lemma_lookup_at(s, 11);
        lemma_u256_round_trip(d.base_price);
        if d.listing_type is Some { lemma_listing_type_round_trip(d.listing_type->0); }
        lemma_wrapped_addr_round_trip(d.maker);
        lemma_payment_token_round_trip(d.payment_token);
        lemma_u64_dec_round_trip(d.quantity);
        if d.taker is Some { lemma_wrapped_addr_round_trip(d.taker->0); }
    }
}

/// Decoding inverts encoding for this event kind.
pub proof fn lemma_sold_round_trip(d: ItemSoldDataV)
    ensures
        sold_wf(d) ==> dec_sold_v(enc_sold_entries(d)) == Ok::<ItemSoldDataV, ErrorKind>(d),
{
    if sold_wf(d) {
        lemma_key_distinct();
        let s = enc_sold_entries(d);
        assert(s.len() == 12);
        assert(s[0] == ("collection"@, enc_collection(d.context.collection)));
        assert(s[1] == ("item"@, enc_item(d.context.item)));
        assert(s[2] == ("event_timestamp"@, JsonV::Str(d.event_timestamp.text)));
        assert(s[3] == ("closing_date"@, JsonV::Str(d.closing_date.text)));
        assert(s[4] == ("is_private"@, JsonV::Bool(d.is_private)));
        assert(s[5] == ("listing_type"@, crate::codec::enc_listing_opt(d.listing_type)));
        assert(s[6] == ("maker"@, enc_addr(d.maker)));
        assert(s[7] == ("payment_token"@, enc_payment_token(d.payment_token)));
        assert(s[8] == ("quantity"@, JsonV::Num(crate::text::dec_text(d.quantity as int))));
        assert(s[9] == ("sale_price"@, JsonV::Str(d.sale_price)));
        assert(s[10] == ("taker"@, enc_addr(d.taker)));
        assert(s[11] == ("transaction"@, enc_transaction(d.transaction)));
        lemma_context_round_trip_in(s, d.context);
        lemma_lookup_at(s, 2);
        lemma_lookup_at(s, 3);
        lemma_lookup_at(s, 4);
        lemma_lookup_at(s, 5);
        lemma_lookup_at(s, 6);
        lemma_lookup_at(s, 7);
        lemma_lookup_at(s, 8);
        lemma_lookup_at(s, 9);
        lemma_lookup_at(s, 10);
        lemma_lookup_at(s, 11);
        if d.listing_type is Some { lemma_listing_type_round_trip(d.listing_type->0); }
        lemma_wrapped_addr_round_trip(d.maker);
        lemma_payment_token_round_trip(d.payment_token);
        lemma_u64_dec_round_trip(d.quantity);
        lemma_u256_round_trip(d.sale_price);
        lemma_wrapped_addr_round_trip(d.taker);
        lemma_transaction_round_trip(d.transaction);
    }
}

/// Decoding inverts encoding for this event kind.
pub proof fn lemma_transferred_round_trip(d: ItemTransferredDataV)
    ensures
        transferred_wf(d) ==> dec_transferred_v(enc_transferred_entries(d)) == Ok::<ItemTransferredDataV, ErrorKind>(d),
{
    if transferred_wf(d) {
        lemma_key_distinct();
        let s = enc_transferred_entries(d);
        assert(s.len() == 7);
        assert(s[0] == ("collection"@, enc_collection(d.context.collection)));
        assert(s[1] == ("item"@, enc_item(d.context.item)));
        assert(s[2] == ("event_timestamp"@, JsonV::Str(d.event_timestamp.text)));
        assert(s[3] == ("transaction"@, enc_transaction(d.transaction)));
        assert(s[4] == ("from_account"@, enc_addr(d.from_account)));
        assert(s[5] == ("to_account"@, enc_addr(d.to_account)));
        assert(s[6] == ("quantity"@, JsonV::Num(crate::text::dec_text(d.quantity as int))));
        lemma_context_round_trip_in(s, d.context);
        lemma_lookup_at(s, 2);
        lemma_lookup_at(s, 3);
        lemma_lookup_at(s, 4);
        lemma_lookup_at(s, 5);
        lemma_lookup_at(s, 6);
        lemma_transaction_round_trip(d.transaction);
        lemma_wrapped_addr_round_trip(d.from_account);
        lemma_wrapped_addr_round_trip(d.to_account);
        lemma_u64_dec_round_trip(d.quantity);
    }
}

/// Decoding inverts encoding for this event kind.
pub proof fn lemma_metadata_updated_round_trip(d: ItemMetadataUpdatedDataV)
    ensures
        metadata_updated_wf(d) ==> dec_metadata_updated_v(enc_metadata_updated_entries(d)) == Ok::<ItemMetadataUpdatedDataV, ErrorKind>(d),
{
    if metadata_updated_wf(d) {
        lemma_key_distinct();
        let s = enc_metadata_updated_entries(d);
        assert(s.len() == 9);
        assert(s[0] == ("collection"@, enc_collection(d.context.collection)));
        assert(s[1] == ("item"@, enc_item(d.context.item)));
        assert(s[2] == ("name"@, crate::codec::enc_opt_str(d.name)));
        assert(s[3] == ("description"@, crate::codec::enc_opt_str(d.description)));
        assert(s[4] == ("image_preview_url"@, crate::codec::enc_opt_str(d.image_preview_url)));
        assert(s[5] == ("animation_url"@, crate::codec::enc_opt_str(d.animation_url)));
        assert(s[6] == ("background_color"@, crate::codec::enc_opt_str(d.background_color)));
        assert(s[7] == ("metadata_url"@, crate::codec::enc_opt_str(d.metadata_url)));
        assert(s[8] == ("traits"@, JsonV::Arr(d.traits)));
        lemma_context_round_trip_in(s, d.context);
        lemma_lookup_at(s, 2);
        lemma_lookup_at(s, 3);
        lemma_lookup_at(s, 4);
        lemma_lookup_at(s, 5);
        lemma_lookup_at(s, 6);
        lemma_lookup_at(s, 7);
        lemma_lookup_at(s, 8);
    }
}

/// Decoding inverts encoding for this event kind.
pub proof fn lemma_cancelled_round_trip(d: ItemCancelledDataV)
    ensures
        cancelled_wf(d) ==> dec_cancelled_v(enc_cancelled_entries(d)) == Ok::<ItemCancelledDataV, ErrorKind>(d),
{
    if cancelled_wf(d) {
        lemma_key_distinct();
        let s = enc_cancelled_entries(d);
        assert(s.len() == 7);
        assert(s[0] == ("collection"@, enc_collection(d.context.collection)));
        assert(s[1] == ("item"@, enc_item(d.context.item)));
        assert(s[2] == ("event_timestamp"@, JsonV::Str(d.event_timestamp.text)));
        assert(s[3] == ("listing_type"@, crate::codec::enc_listing_opt(d.listing_type)));
        assert(s[4] == ("payment_token"@, enc_payment_token(d.payment_token)));
        assert(s[5] == ("quantity"@, JsonV::Num(crate::text::dec_text(d.quantity as int))));
        assert(s[6] == ("transaction"@, enc_transaction(d.transaction)));
        lemma_context_round_trip_in(s, d.context);
        lemma_lookup_at(s, 2);
        lemma_lookup_at(s, 3);
        lemma_lookup_at(s, 4);
        lemma_lookup_at(s, 5);
        lemma_lookup_at(s, 6);
        if d.listing_type is Some { lemma_listing_type_round_trip(d.listing_type->0); }
        lemma_payment_token_round_trip(d.payment_token);
        lemma_u64_dec_round_trip(d.quantity);
        lemma_transaction_round_trip(d.transaction);
    }
}

/// Decoding inverts encoding for this event kind.
pub proof fn lemma_offer_round_trip(d: ItemReceivedOfferDataV)
    ensures
        offer_wf(d) ==> dec_offer_v(enc_offer_entries(d)) == Ok::<ItemReceivedOfferDataV, ErrorKind>(d),
{
    if offer_wf(d) {
        lemma_key_distinct();
        let s = enc_offer_entries(d);
        assert(s.len() == 10);
        assert(s[0] == ("collection"@, enc_collection(d.context.collection)));
        assert(s[1] == ("item"@, enc_item(d.context.item)));
        assert(s[2] == ("event_timestamp"@, JsonV::Str(d.event_timestamp.text)));
        assert(s[3] == ("base_price"@, JsonV::Str(d.base_price)));
        assert(s[4] == ("created_date"@, JsonV::Str(d.created_date.text)));
        assert(s[5] == ("expiration_date"@, JsonV::Str(d.expiration_date.text)));
        assert(s[6] == ("maker"@, enc_addr(d.maker)));
        assert(s[7] == ("payment_token"@, enc_payment_token(d.payment_token)));
        assert(s[8] == ("quantity"@, JsonV::Num(crate::text::dec_text(d.quantity as int))));
        assert(s[9] == ("taker"@, crate::codec::enc_addr_opt(d.taker)));
        lemma_context_round_trip_in(s, d.context);
        lemma_lookup_at(s, 2);
        lemma_lookup_at(s, 3);
        lemma_lookup_at(s, 4);
        lemma_lookup_at(s, 5);
        lemma_lookup_at(s, 6);
        lemma_lookup_at(s, 7);
        lemma_lookup_at(s, 8);
        lemma_lookup_at(s, 9);
        lemma_u256_round_trip(d.base_price);
        lemma_wrapped_addr_round_trip(d.maker);
        lemma_payment_token_round_trip(d.payment_token);
        lemma_u64_dec_round_trip(d.quantity);
        if d.taker is Some { lemma_wrapped_addr_round_trip(d.taker->0); }
    }
}

/// Decoding inverts encoding for this event kind.
pub proof fn lemma_bid_round_trip(d: ItemReceivedBidDataV)
    ensures
        bid_wf(d) ==> dec_bid_v(enc_bid_entries(d)) == Ok::<ItemReceivedBidDataV, ErrorKind>(d),
{
    if bid_wf(d) {
        lemma_key_distinct();
        let s = enc_bid_entries(d);
        assert(s.len() == 10);
        assert(s[0] == ("collection"@, enc_collection(d.context.collection)));
        assert(s[1] == ("item"@, enc_item(d.context.item)));
        assert(s[2] == ("event_timestamp"@, JsonV::Str(d.event_timestamp.text)));
        assert(s[3] == ("base_price"@, JsonV::Str(d.base_price)));
        assert(s[4] == ("created_date"@, JsonV::Str(d.created_date.text)));
        assert(s[5] == ("expiration_date"@, JsonV::Str(d.expiration_date.text)));
        assert(s[6] == ("maker"@, enc_addr(d.maker)));
        assert(s[7] == ("payment_token"@, enc_payment_token(d.payment_token)));
        assert(s[8] == ("quantity"@, JsonV::Num(crate::text::dec_text(d.quantity as int))));
        assert(s[9] == ("taker"@, crate::codec::enc_addr_opt(d.taker)));
        lemma_context_round_trip_in(s, d.context);
        lemma_lookup_at(s, 2);
        lemma_lookup_at(s, 3);
        lemma_lookup_at(s, 4);
        lemma_lookup_at(s, 5);
        lemma_lookup_at(s, 6);
        lemma_lookup_at(s, 7);
        lemma_lookup_at(s, 8);
        lemma_lookup_at(s, 9);
        lemma_u256_round_trip(d.base_price);
        lemma_wrapped_addr_round_trip(d.maker);
        lemma_payment_token_round_trip(d.payment_token);
        lemma_u64_dec_round_trip(d.quantity);
        if d.taker is Some { lemma_wrapped_addr_round_trip(d.taker->0); }
    }
}

/// Dispatch closes the loop: the payload object of any well-formed payload,
/// read back under its own discriminant tag, yields the payload.
pub proof fn lemma_payload_round_trip(p: PayloadV)
    ensures
        payload_wf(p) ==> dec_payload_v(payload_tag(p), enc_payload_entries(p)) == Ok::<
            PayloadV,
            ErrorKind,
        >(p),
{
    if payload_wf(p) {
        lemma_key_distinct();
        match p {
            PayloadV::ItemListed(d) => lemma_listed_round_trip(d),
            PayloadV::ItemSold(d) => lemma_sold_round_trip(d),
            PayloadV::ItemTransferred(d) => lemma_transferred_round_trip(d),
            PayloadV::ItemMetadataUpdated(d) => lemma_metadata_updated_round_trip(d),
            PayloadV::ItemCancelled(d) => lemma_cancelled_round_trip(d),
            PayloadV::ItemReceivedOffer(d) => lemma_offer_round_trip(d),
            PayloadV::ItemReceivedBid(d) => lemma_bid_round_trip(d),
        }
    }
}

/// Decoding inverts encoding: every well-formed event, encoded to its wire
/// document and decoded again, comes back unchanged.
pub proof fn lemma_stream_event_round_trip(e: StreamEventV)
    ensures
        stream_event_wf(e) ==> dec_stream_event_v(enc_stream_event_v(e)) == Ok::<
            StreamEventV,
            ErrorKind,
        >(e),
{
    if stream_event_wf(e) {
        lemma_key_distinct();
        let s = enc_stream_event_v(e)->Obj_0;
        assert(s.len() == 3);
        assert(s[0] == ("sent_at"@, JsonV::Str(e.sent_at.text)));
        assert(s[1] == ("event_type"@, JsonV::Str(payload_tag(e.payload))));
        assert(s[2] == ("payload"@, JsonV::Obj(enc_payload_entries(e.payload))));
        lemma_lookup_at(s, 0);
        lemma_lookup_at(s, 1);
        lemma_lookup_at(s, 2);
        lemma_payload_round_trip(e.payload);
    }
}



/// A parsed scaled integer is canonical.
proof fn lemma_u256_parse_wf(t: Seq<char>)
    ensures
        crate::u256::u256_parse(t) is Some ==> u256_canonical(crate::u256::u256_parse(t)->0),
{
    if crate::u256::u256_parse(t) is Some {
        crate::text::lemma_strip0(t);
    }
}

/// A decoded composite identifier is well formed.
proof fn lemma_dec_nft_id_wf(t: Seq<char>)
    ensures
        dec_nft_id_text(t) is Ok ==> nft_id_wf(dec_nft_id_text(t)->Ok_0),
{
    match find_char(t, '/', 0) {
        Some(i) => {
            lemma_find_char(t, '/', 0);
            match find_char(t, '/', i + 1) {
                Some(j) => {
                    lemma_find_char(t, '/', i + 1);
                    lemma_u256_parse_wf(t.skip(j + 1));
                },
                None => {},
            }
        },
        None => {},
    }
}

/// A decoded metadata record is well formed.
proof fn lemma_dec_metadata_wf(mo: Seq<(Seq<char>, JsonV)>)
    ensures
        dec_metadata_obj(mo) is Ok ==> metadata_wf(dec_metadata_obj(mo)->Ok_0),
{
}

/// A decoded item is well formed.
proof fn lemma_dec_item_wf(io: Seq<(Seq<char>, JsonV)>)
    ensures
        dec_item_obj(io) is Ok ==> item_wf(dec_item_obj(io)->Ok_0),
{
    match obj_lookup(io, "nft_id"@) {
        Some(JsonV::Str(t)) => lemma_dec_nft_id_wf(t),
        _ => {},
    }
    match obj_lookup(io, "metadata"@) {
        Some(JsonV::Obj(mo)) => lemma_dec_metadata_wf(mo),
        _ => {},
    }
}

/// A decoded context is well formed.
proof fn lemma_dec_context_wf(o: Seq<(Seq<char>, JsonV)>)
    ensures
        dec_context_v(o) is Ok ==> context_wf(dec_context_v(o)->Ok_0),
{
    match obj_lookup(o, "item"@) {
        Some(JsonV::Obj(io)) => lemma_dec_item_wf(io),
        _ => {},
    }
}

/// A decoded record of this event kind is well formed.
proof fn lemma_dec_listed_wf(o: Seq<(Seq<char>, JsonV)>)
    ensures
        dec_listed_v(o) is Ok ==> listed_wf(dec_listed_v(o)->Ok_0),
{
    lemma_dec_context_wf(o);
    match obj_lookup(o, "base_price"@) {
        Some(JsonV::Str(t)) => lemma_u256_parse_wf(t),
        _ => {},
    }
}

/// A decoded record of this event kind is well formed.
proof fn lemma_dec_sold_wf(o: Seq<(Seq<char>, JsonV)>)
    ensures
        dec_sold_v(o) is Ok ==> sold_wf(dec_sold_v(o)->Ok_0),
{
    lemma_dec_context_wf(o);
    match obj_lookup(o, "sale_price"@) {
        Some(JsonV::Str(t)) => lemma_u256_parse_wf(t),
        _ => {},
    }
}

/// A decoded record of this event kind is well formed.
proof fn lemma_dec_transferred_wf(o: Seq<(Seq<char>, JsonV)>)
    ensures
        dec_transferred_v(o) is Ok ==> transferred_wf(dec_transferred_v(o)->Ok_0),
{
    lemma_dec_context_wf(o);
}

/// A decoded record of this event kind is well formed.
proof fn lemma_dec_metadata_updated_wf(o: Seq<(Seq<char>, JsonV)>)
    ensures
        dec_metadata_updated_v(o) is Ok ==> metadata_updated_wf(dec_metadata_updated_v(o)->Ok_0),
{
    lemma_dec_context_wf(o);
}

/// A decoded record of this event kind is well formed.
proof fn lemma_dec_cancelled_wf(o: Seq<(Seq<char>, JsonV)>)
    ensures
        dec_cancelled_v(o) is Ok ==> cancelled_wf(dec_cancelled_v(o)->Ok_0),
{
    lemma_dec_context_wf(o);
}

/// A decoded record of this event kind is well formed.
proof fn lemma_dec_offer_wf(o: Seq<(Seq<char>, JsonV)>)
    ensures
        dec_offer_v(o) is Ok ==> offer_wf(dec_offer_v(o)->Ok_0),
{
    lemma_dec_context_wf(o);
    match obj_lookup(o, "base_price"@) {
        Some(JsonV::Str(t)) => lemma_u256_parse_wf(t),
        _ => {},
    }
}

/// A decoded record of this event kind is well formed.
proof fn lemma_dec_bid_wf(o: Seq<(Seq<char>, JsonV)>)
    ensures
        dec_bid_v(o) is Ok ==> bid_wf(dec_bid_v(o)->Ok_0),
{
    lemma_dec_context_wf(o);
    match obj_lookup(o, "base_price"@) {
        Some(JsonV::Str(t)) => lemma_u256_parse_wf(t),
        _ => {},
    }
}

/// Whatever the decoder accepts is well formed: decoded events always lie
/// in the domain on which encoding inverts decoding.
pub proof fn lemma_decode_wf(j: JsonV)
    ensures
        dec_stream_event_v(j) is Ok ==> stream_event_wf(dec_stream_event_v(j)->Ok_0),
{
    match j {
        JsonV::Obj(o) => {
            match obj_lookup(o, "payload"@) {
                Some(JsonV::Obj(po)) => {
                    lemma_dec_listed_wf(po);
                    lemma_dec_sold_wf(po);
                    lemma_dec_transferred_wf(po);
                    lemma_dec_metadata_updated_wf(po);
                    lemma_dec_cancelled_wf(po);
                    lemma_dec_offer_wf(po);
                    lemma_dec_bid_wf(po);
                },
                _ => {},
            }
        },
        _ => {},
    }
}


/// Decoding, re-encoding and decoding again settles: whatever document the
/// decoder accepts, the decoder reads the re-encoded document back to the
/// same event.
pub proof fn lemma_recode_stable(j: JsonV)
    ensures
        dec_stream_event_v(j) is Ok ==> dec_stream_event_v(
            enc_stream_event_v(dec_stream_event_v(j)->Ok_0),
        ) == dec_stream_event_v(j),
{
    if dec_stream_event_v(j) is Ok {
        lemma_decode_wf(j);
        lemma_stream_event_round_trip(dec_stream_event_v(j)->Ok_0);
    }
}


/// Encoding is injective on well-formed events: two events with the same
/// wire document are the same event.
pub proof fn lemma_encode_injective(e1: StreamEventV, e2: StreamEventV)
    ensures
        stream_event_wf(e1) && stream_event_wf(e2) && enc_stream_event_v(e1)
            == enc_stream_event_v(e2) ==> e1 == e2,
{
    if stream_event_wf(e1) && stream_event_wf(e2) && enc_stream_event_v(e1)
        == enc_stream_event_v(e2) {
        lemma_stream_event_round_trip(e1);
        lemma_stream_event_round_trip(e2);
    }
}

} // verus!
