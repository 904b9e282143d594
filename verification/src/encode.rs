//! The executable encoder: from a typed event back to its canonical JSON
//! wire document. Each function produces exactly what its spec function in
//! [`crate::codec`] says for the value's view.

use vstd::prelude::*;

use crate::address::Address;
use crate::chain::{Chain, ListingType};
use crate::codec::{enc_addr, enc_addr_opt, enc_chain, enc_collection, enc_listing_opt,
    enc_metadata, enc_opt_str, enc_payload_entries, enc_payment_token, enc_stream_event_v,
    enc_transaction, nft_id_text, payload_tag};
use crate::json::{arr_view, clone_arr, obj_view, Json};
use crate::link::UrlText;
use crate::schema::{view_opt, Collection, Context, Item, ItemCancelledData, ItemListedData,
    ItemMetadataUpdatedData, ItemReceivedBidData, ItemReceivedOfferData, ItemSoldData,
    ItemTransferredData, Metadata, NftId, Payload, PaymentToken, StreamEvent, Transaction};
use crate::text::u64_to_dec;
use crate::time::Timestamp;

verus! {

/// An optional string, with null for none.
fn encode_opt_string(o: &Option<String>) -> (r: Json)
    ensures
        r@ == enc_opt_str(view_opt(*o)),
{
    match o {
        Some(s) => Json::Str(s.clone()),
        None => Json::Null,
    }
}

/// An optional URL, with null for none.
fn encode_opt_url(o: &Option<UrlText>) -> (r: Json)
    ensures
        r@ == enc_opt_str(view_opt(*o)),
{
    match o {
        Some(u) => Json::Str(u.as_str().to_owned()),
        None => Json::Null,
    }
}

/// A timestamp, as its verbatim wire text.
fn encode_timestamp(t: &Timestamp) -> (r: Json)
    ensures
        r@ == crate::json::JsonV::Str(t@.text),
{
    Json::Str(t.text().to_owned())
}

/// A wrapped address object.
fn encode_addr(a: &Address) -> (r: Json)
    ensures
        r@ == enc_addr(a@),
{
    let mut entries: Vec<(String, Json)> = Vec::new();
    entries.push((String::from_str("address"), Json::Str(a.to_hex_string())));
    proof {
        crate::json::lemma_obj_view(entries@);
        assert(obj_view(entries@) =~= enc_addr(a@)->Obj_0);
    }
    Json::Obj(entries)
}

/// An optional wrapped address, with null for none.
fn encode_addr_opt(o: &Option<Address>) -> (r: Json)
    ensures
        r@ == enc_addr_opt(view_opt(*o)),
{
    match o {
        Some(a) => encode_addr(a),
        None => Json::Null,
    }
}

/// An optional listing type, with null for a buyout.
fn encode_listing_opt(o: &Option<ListingType>) -> (r: Json)
    ensures
        r@ == enc_listing_opt(*o),
{
    match o {
        Some(l) => Json::Str(l.name().to_owned()),
        None => Json::Null,
    }
}

/// A chain object.
fn encode_chain(c: &Chain) -> (r: Json)
    ensures
        r@ == enc_chain(*c),
{
    let mut entries: Vec<(String, Json)> = Vec::new();
    entries.push((String::from_str("name"), Json::Str(c.name().to_owned())));
    proof {
        crate::json::lemma_obj_view(entries@);
        assert(obj_view(entries@) =~= enc_chain(*c)->Obj_0);
    }
    Json::Obj(entries)
}

/// A collection object.
fn encode_collection(c: &Collection) -> (r: Json)
    ensures
        r@ == enc_collection(c@),
{
    let mut entries: Vec<(String, Json)> = Vec::new();
    entries.push((String::from_str("slug"), Json::Str(c.slug().to_owned())));
    proof {
        crate::json::lemma_obj_view(entries@);
        assert(obj_view(entries@) =~= enc_collection(c@)->Obj_0);
    }
    Json::Obj(entries)
}

/// The composite identifier string of an item.
pub fn encode_nft_id(n: &NftId) -> (r: String)
    ensures
        r@ == nft_id_text(n@),
{
    let mut s = n.network.name().to_owned();
    s.append("/");
    let hex = n.address.to_hex_string();
    s.append(hex.as_str());
    s.append("/");
    s.append(n.id.dec_str());
    proof {
        reveal_strlit("/");
        assert("/"@ =~= seq!['/']);
        assert(s@ =~= nft_id_text(n@));
    }
    s
}

/// The metadata object.
fn encode_metadata(m: &Metadata) -> (r: Json)
    ensures
        r@ == enc_metadata(m@),
{
    let mut entries: Vec<(String, Json)> = Vec::new();
    entries.push((String::from_str("name"), encode_opt_string(&m.name)));
    entries.push((String::from_str("description"), encode_opt_string(&m.description)));
    entries.push((String::from_str("image_url"), encode_opt_url(&m.image_url)));
    entries.push((String::from_str("animation_url"), encode_opt_url(&m.animation_url)));
    entries.push((String::from_str("metadata_url"), encode_opt_url(&m.metadata_url)));
    proof {
        crate::json::lemma_obj_view(entries@);
        assert(obj_view(entries@) =~= enc_metadata(m@)->Obj_0);
    }
    Json::Obj(entries)
}

/// The item object.
fn encode_item(i: &Item) -> (r: Json)
    ensures
        r@ == crate::codec::enc_item(i@),
{
    let mut entries: Vec<(String, Json)> = Vec::new();
    entries.push((String::from_str("nft_id"), Json::Str(encode_nft_id(&i.nft_id))));
    entries.push((String::from_str("permalink"), Json::Str(i.permalink.as_str().to_owned())));
    entries.push((String::from_str("chain"), encode_chain(&i.chain)));
    entries.push((String::from_str("metadata"), encode_metadata(&i.metadata)));
    proof {
        crate::json::lemma_obj_view(entries@);
        assert(obj_view(entries@) =~= crate::codec::enc_item(i@)->Obj_0);
    }
    Json::Obj(entries)
}

/// The payment-token object.
fn encode_payment_token(p: &PaymentToken) -> (r: Json)
    ensures
        r@ == enc_payment_token(p@),
{
    let mut entries: Vec<(String, Json)> = Vec::new();
    entries.push((String::from_str("address"), Json::Str(p.address.to_hex_string())));
    entries.push((String::from_str("decimals"), Json::Num(u64_to_dec(p.decimals))));
    entries.push((String::from_str("eth_price"), Json::Str(p.eth_price.as_str().to_owned())));
    entries.push((String::from_str("name"), Json::Str(p.name.clone())));
    entries.push((String::from_str("symbol"), Json::Str(p.symbol.clone())));
    entries.push((String::from_str("usd_price"), Json::Str(p.usd_price.as_str().to_owned())));
    proof {
        crate::json::lemma_obj_view(entries@);
        assert(obj_view(entries@) =~= enc_payment_token(p@)->Obj_0);
    }
    Json::Obj(entries)
}

/// The transaction object.
fn encode_transaction(t: &Transaction) -> (r: Json)
    ensures
        r@ == enc_transaction(t@),
{
    let mut entries: Vec<(String, Json)> = Vec::new();
    entries.push((String::from_str("hash"), Json::Str(t.hash.to_hex_string())));
    entries.push((String::from_str("timestamp"), encode_timestamp(&t.timestamp)));
    proof {
        crate::json::lemma_obj_view(entries@);
        assert(obj_view(entries@) =~= enc_transaction(t@)->Obj_0);
    }
    Json::Obj(entries)
}

/// The two flattened context entries that open every payload object.
fn push_context(entries: &mut Vec<(String, Json)>, c: &Context)
    requires
        old(entries)@.len() == 0,
    ensures
        final(entries)@.len() == 2,
        final(entries)@[0].0@ == "collection"@,
        final(entries)@[0].1@ == enc_collection(c@.collection),
        final(entries)@[1].0@ == "item"@,
        final(entries)@[1].1@ == crate::codec::enc_item(c@.item),
{
    entries.push((String::from_str("collection"), encode_collection(&c.collection)));
    entries.push((String::from_str("item"), encode_item(&c.item)));
}

/// The payload object of an `item_listed` event.
pub fn encode_item_listed(d: &ItemListedData) -> (r: Json)
    ensures
        r@ == crate::json::JsonV::Obj(crate::codec::enc_listed_entries(d@)),
{
    let mut entries: Vec<(String, Json)> = Vec::new();
    push_context(&mut entries, &d.context);
    entries.push((String::from_str("event_timestamp"), encode_timestamp(&d.event_timestamp)));
    entries.push((String::from_str("base_price"), Json::Str(d.base_price.dec_str().to_owned())));
    entries.push((String::from_str("expiration_date"), encode_timestamp(&d.expiration_date)));
    entries.push((String::from_str("is_private"), Json::Bool(d.is_private)));
    entries.push((String::from_str("listing_date"), encode_timestamp(&d.listing_date)));
    entries.push((String::from_str("listing_type"), encode_listing_opt(&d.listing_type)));
    entries.push((String::from_str("maker"), encode_addr(&d.maker)));
    entries.push((String::from_str("payment_token"), encode_payment_token(&d.payment_token)));
    entries.push((String::from_str("quantity"), Json::Num(u64_to_dec(d.quantity))));
    entries.push((String::from_str("taker"), encode_addr_opt(&d.taker)));
    proof {
        crate::json::lemma_obj_view(entries@);
        assert(obj_view(entries@) =~= crate::codec::enc_listed_entries(d@));
    }
    Json::Obj(entries)
}

/// The payload object of an `item_sold` event.
pub fn encode_item_sold(d: &ItemSoldData) -> (r: Json)
    ensures
        r@ == crate::json::JsonV::Obj(crate::codec::enc_sold_entries(d@)),
{
    let mut entries: Vec<(String, Json)> = Vec::new();
    push_context(&mut entries, &d.context);
    entries.push((String::from_str("event_timestamp"), encode_timestamp(&d.event_timestamp)));
    entries.push((String::from_str("closing_date"), encode_timestamp(&d.closing_date)));
    entries.push((String::from_str("is_private"), Json::Bool(d.is_private)));
    entries.push((String::from_str("listing_type"), encode_listing_opt(&d.listing_type)));
    entries.push((String::from_str("maker"), encode_addr(&d.maker)));
    entries.push((String::from_str("payment_token"), encode_payment_token(&d.payment_token)));
    entries.push((String::from_str("quantity"), Json::Num(u64_to_dec(d.quantity))));
    entries.push((String::from_str("sale_price"), Json::Str(d.sale_price.dec_str().to_owned())));
    entries.push((String::from_str("taker"), encode_addr(&d.taker)));
    entries.push((String::from_str("transaction"), encode_transaction(&d.transaction)));
    proof {
        crate::json::lemma_obj_view(entries@);
        assert(obj_view(entries@) =~= crate::codec::enc_sold_entries(d@));
    }
    Json::Obj(entries)
}

/// The payload object of an `item_transferred` event.
pub fn encode_item_transferred(d: &ItemTransferredData) -> (r: Json)
    ensures
        r@ == crate::json::JsonV::Obj(crate::codec::enc_transferred_entries(d@)),
{
    let mut entries: Vec<(String, Json)> = Vec::new();
    push_context(&mut entries, &d.context);
    entries.push((String::from_str("event_timestamp"), encode_timestamp(&d.event_timestamp)));
    entries.push((String::from_str("transaction"), encode_transaction(&d.transaction)));
    entries.push((String::from_str("from_account"), encode_addr(&d.from_account)));
    entries.push((String::from_str("to_account"), encode_addr(&d.to_account)));
    entries.push((String::from_str("quantity"), Json::Num(u64_to_dec(d.quantity))));
    proof {
        crate::json::lemma_obj_view(entries@);
        assert(obj_view(entries@) =~= crate::codec::enc_transferred_entries(d@));
    }
    Json::Obj(entries)
}

/// The payload object of an `item_metadata_updated` event.
pub fn encode_item_metadata_updated(d: &ItemMetadataUpdatedData) -> (r: Json)
    ensures
        r@ == crate::json::JsonV::Obj(crate::codec::enc_metadata_updated_entries(d@)),
{
    let mut entries: Vec<(String, Json)> = Vec::new();
    push_context(&mut entries, &d.context);
    entries.push((String::from_str("name"), encode_opt_string(&d.name)));
    entries.push((String::from_str("description"), encode_opt_string(&d.description)));
    entries.push((String::from_str("image_preview_url"), encode_opt_url(&d.image_preview_url)));
    entries.push((String::from_str("animation_url"), encode_opt_url(&d.animation_url)));
    entries.push((String::from_str("background_color"), encode_opt_string(&d.background_color)));
    entries.push((String::from_str("metadata_url"), encode_opt_url(&d.metadata_url)));
    let traits = clone_arr(&d.traits);
    proof {
        crate::json::lemma_arr_view(traits@);
        crate::json::lemma_arr_view(d.traits@);
        assert(arr_view(traits@) =~= arr_view(d.traits@));
    }
    entries.push((String::from_str("traits"), Json::Arr(traits)));
    proof {
        crate::json::lemma_obj_view(entries@);
        assert(obj_view(entries@) =~= crate::codec::enc_metadata_updated_entries(d@));
    }
    Json::Obj(entries)
}

/// The payload object of an `item_cancelled` event.
pub fn encode_item_cancelled(d: &ItemCancelledData) -> (r: Json)
    ensures
        r@ == crate::json::JsonV::Obj(crate::codec::enc_cancelled_entries(d@)),
{
    let mut entries: Vec<(String, Json)> = Vec::new();
    push_context(&mut entries, &d.context);
    entries.push((String::from_str("event_timestamp"), encode_timestamp(&d.event_timestamp)));
    entries.push((String::from_str("listing_type"), encode_listing_opt(&d.listing_type)));
    entries.push((String::from_str("payment_token"), encode_payment_token(&d.payment_token)));
    entries.push((String::from_str("quantity"), Json::Num(u64_to_dec(d.quantity))));
    entries.push((String::from_str("transaction"), encode_transaction(&d.transaction)));
    proof {
        crate::json::lemma_obj_view(entries@);
        assert(obj_view(entries@) =~= crate::codec::enc_cancelled_entries(d@));
    }
    Json::Obj(entries)
}

/// The payload object of an `item_received_offer` event.
pub fn encode_item_received_offer(d: &ItemReceivedOfferData) -> (r: Json)
    ensures
        r@ == crate::json::JsonV::Obj(crate::codec::enc_offer_entries(d@)),
{
    let mut entries: Vec<(String, Json)> = Vec::new();
    push_context(&mut entries, &d.context);
    entries.push((String::from_str("event_timestamp"), encode_timestamp(&d.event_timestamp)));
    entries.push((String::from_str("base_price"), Json::Str(d.base_price.dec_str().to_owned())));
    entries.push((String::from_str("created_date"), encode_timestamp(&d.created_date)));
    entries.push((String::from_str("expiration_date"), encode_timestamp(&d.expiration_date)));
    entries.push((String::from_str("maker"), encode_addr(&d.maker)));
    entries.push((String::from_str("payment_token"), encode_payment_token(&d.payment_token)));
    entries.push((String::from_str("quantity"), Json::Num(u64_to_dec(d.quantity))));
    entries.push((String::from_str("taker"), encode_addr_opt(&d.taker)));
    proof {
        crate::json::lemma_obj_view(entries@);
        assert(obj_view(entries@) =~= crate::codec::enc_offer_entries(d@));
    }
    Json::Obj(entries)
}

/// The payload object of an `item_received_bid` event.
pub fn encode_item_received_bid(d: &ItemReceivedBidData) -> (r: Json)
    ensures
        r@ == crate::json::JsonV::Obj(crate::codec::enc_bid_entries(d@)),
{
    let mut entries: Vec<(String, Json)> = Vec::new();
    push_context(&mut entries, &d.context);
    entries.push((String::from_str("event_timestamp"), encode_timestamp(&d.event_timestamp)));
    entries.push((String::from_str("base_price"), Json::Str(d.base_price.dec_str().to_owned())));
    entries.push((String::from_str("created_date"), encode_timestamp(&d.created_date)));
    entries.push((String::from_str("expiration_date"), encode_timestamp(&d.expiration_date)));
    entries.push((String::from_str("maker"), encode_addr(&d.maker)));
    entries.push((String::from_str("payment_token"), encode_payment_token(&d.payment_token)));
    entries.push((String::from_str("quantity"), Json::Num(u64_to_dec(d.quantity))));
    entries.push((String::from_str("taker"), encode_addr_opt(&d.taker)));
    proof {
        crate::json::lemma_obj_view(entries@);
        assert(obj_view(entries@) =~= crate::codec::enc_bid_entries(d@));
    }
    Json::Obj(entries)
}

/// The discriminant tag of a payload, as carried in `event_type`.
pub fn payload_tag_str(p: &Payload) -> (r: &'static str)
    ensures
        r@ == payload_tag(p@),
{
    match p {
        Payload::ItemListed(_) => "item_listed",
        Payload::ItemSold(_) => "item_sold",
        Payload::ItemTransferred(_) => "item_transferred",
        Payload::ItemMetadataUpdated(_) => "item_metadata_updated",
        Payload::ItemCancelled(_) => "item_cancelled",
        Payload::ItemReceivedOffer(_) => "item_received_offer",
        Payload::ItemReceivedBid(_) => "item_received_bid",
    }
}

/// The payload object of any event kind.
pub fn encode_payload_obj(p: &Payload) -> (r: Json)
    ensures
        r@ == crate::json::JsonV::Obj(enc_payload_entries(p@)),
{
    match p {
        Payload::ItemListed(d) => encode_item_listed(d),
        Payload::ItemSold(d) => encode_item_sold(d),
        Payload::ItemTransferred(d) => encode_item_transferred(d),
        Payload::ItemMetadataUpdated(d) => encode_item_metadata_updated(d),
        Payload::ItemCancelled(d) => encode_item_cancelled(d),
        Payload::ItemReceivedOffer(d) => encode_item_received_offer(d),
        Payload::ItemReceivedBid(d) => encode_item_received_bid(d),
    }
}

/// Encode a typed event as its canonical JSON wire document.
pub fn encode_stream_event(e: &StreamEvent) -> (r: Json)
    ensures
        r@ == enc_stream_event_v(e@),
{
    let mut entries: Vec<(String, Json)> = Vec::new();
    entries.push((String::from_str("sent_at"), encode_timestamp(&e.sent_at)));
    entries.push((String::from_str("event_type"), Json::Str(payload_tag_str(&e.payload).to_owned())));
    entries.push((String::from_str("payload"), encode_payload_obj(&e.payload)));
    proof {
        crate::json::lemma_obj_view(entries@);
        assert(obj_view(entries@) =~= enc_stream_event_v(e@)->Obj_0);
    }
    Json::Obj(entries)
}

} // verus!
