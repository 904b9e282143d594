//! The executable decoder: from a JSON document to a typed event, or to a
//! decode error naming the field it arose in. Each function returns exactly
//! what its spec function in [`crate::codec`] says for the document's view.

use vstd::prelude::*;

use crate::address::{Address, H256};
use crate::chain::{Chain, ListingType};
use crate::codec::{dec_addr_opt_v, dec_addr_v, dec_bid_v, dec_bool_v, dec_cancelled_v,
    dec_chain_v, dec_collection_v, dec_context_v, dec_hex_v, dec_item_v, dec_listed_v,
    dec_listing_opt_v, dec_metadata_obj, dec_metadata_updated_v, dec_metadata_v, dec_nft_id_text,
    dec_nft_id_v, dec_offer_v, dec_opt_str_v, dec_opt_url_v, dec_payload_v, dec_payment_token_v,
    dec_price_v, dec_sold_v, dec_str_v, dec_stream_event_v, dec_timestamp_v, dec_traits_v,
    dec_transaction_v, dec_transferred_v, dec_u256_v, dec_u64_v, dec_url_v, dec_wrapped_addr_v};
use crate::error::{DecodeError, ErrorKind};
use crate::json::{clone_arr, obj_get, obj_view, str_eq, Json};
use crate::json::arr_view;
use crate::link::UrlText;
use crate::price::Price;
use crate::schema::{Collection, Context, Item, ItemCancelledData, ItemListedData,
    ItemMetadataUpdatedData, ItemReceivedBidData, ItemReceivedOfferData, ItemSoldData,
    ItemTransferredData, Metadata, NftId, Payload, PaymentToken, StreamEvent, Transaction};
use crate::text::{find_char, lemma_find_char, parse_u64};
use crate::time::Timestamp;
use crate::u256::U256;

verus! {

/// A required string field.
fn field_string(o: &Vec<(String, Json)>, k: &str) -> (r: Result<String, DecodeError>)
    ensures
        match r {
            Ok(s) => dec_str_v(obj_view(o@), k@) == Ok::<Seq<char>, ErrorKind>(s@),
            Err(e) => dec_str_v(obj_view(o@), k@) == Err::<Seq<char>, ErrorKind>(e.kind),
        },
{
    match obj_get(o, k) {
        None => Err(DecodeError::new(ErrorKind::MissingRequiredField).at_field(k)),
        Some(Json::Str(s)) => Ok(s.clone()),
        Some(_) => Err(DecodeError::new(ErrorKind::MalformedEnvelope).at_field(k)),
    }
}

/// A required boolean field.
fn field_bool(o: &Vec<(String, Json)>, k: &str) -> (r: Result<bool, DecodeError>)
    ensures
        match r {
            Ok(b) => dec_bool_v(obj_view(o@), k@) == Ok::<bool, ErrorKind>(b),
            Err(e) => dec_bool_v(obj_view(o@), k@) == Err::<bool, ErrorKind>(e.kind),
        },
{
    match obj_get(o, k) {
        None => Err(DecodeError::new(ErrorKind::MissingRequiredField).at_field(k)),
        Some(Json::Bool(b)) => Ok(*b),
        Some(_) => Err(DecodeError::new(ErrorKind::MalformedEnvelope).at_field(k)),
    }
}

/// A required unsigned integer field.
fn field_u64(o: &Vec<(String, Json)>, k: &str) -> (r: Result<u64, DecodeError>)
    ensures
        match r {
            Ok(v) => dec_u64_v(obj_view(o@), k@) == Ok::<u64, ErrorKind>(v),
            Err(e) => dec_u64_v(obj_view(o@), k@) == Err::<u64, ErrorKind>(e.kind),
        },
{
    match obj_get(o, k) {
        None => Err(DecodeError::new(ErrorKind::MissingRequiredField).at_field(k)),
        Some(Json::Num(t)) => match parse_u64(t.as_str()) {
            Some(v) => Ok(v),
            None => Err(
                DecodeError::new(ErrorKind::NumericOverflowOrFormat).at_field(k).with_detail(
                    t.as_str(),
                ),
            ),
        },
        Some(_) => Err(DecodeError::new(ErrorKind::MalformedEnvelope).at_field(k)),
    }
}

/// A required scaled-integer field.
fn field_u256(o: &Vec<(String, Json)>, k: &str) -> (r: Result<U256, DecodeError>)
    ensures
        match r {
            Ok(u) => dec_u256_v(obj_view(o@), k@) == Ok::<Seq<char>, ErrorKind>(u@) && u.wf(),
            Err(e) => dec_u256_v(obj_view(o@), k@) == Err::<Seq<char>, ErrorKind>(e.kind),
        },
{
    match obj_get(o, k) {
        None => Err(DecodeError::new(ErrorKind::MissingRequiredField).at_field(k)),
        Some(Json::Str(t)) => match U256::from_dec_str(t.as_str()) {
            Ok(u) => Ok(u),
            Err(e) => Err(e.at_field(k)),
        },
        Some(_) => Err(DecodeError::new(ErrorKind::MalformedEnvelope).at_field(k)),
    }
}

/// A required timestamp field.
fn field_timestamp(o: &Vec<(String, Json)>, k: &str) -> (r: Result<Timestamp, DecodeError>)
    ensures
        match r {
            Ok(t) => dec_timestamp_v(obj_view(o@), k@) == Ok::<
                crate::time::TimestampV,
                ErrorKind,
            >(t@) && t.wf(),
            Err(e) => dec_timestamp_v(obj_view(o@), k@) == Err::<
                crate::time::TimestampV,
                ErrorKind,
            >(e.kind),
        },
{
    match obj_get(o, k) {
        None => Err(DecodeError::new(ErrorKind::MissingRequiredField).at_field(k)),
        Some(Json::Str(t)) => match Timestamp::parse(t.as_str()) {
            Ok(ts) => Ok(ts),
            Err(e) => Err(e.at_field(k)),
        },
        Some(_) => Err(DecodeError::new(ErrorKind::MalformedEnvelope).at_field(k)),
    }
}

/// A required URL field.
fn field_url(o: &Vec<(String, Json)>, k: &str) -> (r: Result<UrlText, DecodeError>)
    ensures
        match r {
            Ok(u) => dec_url_v(obj_view(o@), k@) == Ok::<Seq<char>, ErrorKind>(u@) && u.wf(),
            Err(e) => dec_url_v(obj_view(o@), k@) == Err::<Seq<char>, ErrorKind>(e.kind),
        },
{
    match obj_get(o, k) {
        None => Err(DecodeError::new(ErrorKind::MissingRequiredField).at_field(k)),
        Some(Json::Str(t)) => match UrlText::parse(t.as_str()) {
            Ok(u) => Ok(u),
            Err(e) => Err(e.at_field(k)),
        },
        Some(_) => Err(DecodeError::new(ErrorKind::MalformedEnvelope).at_field(k)),
    }
}

/// A required price field, quoted or not.
fn field_price(o: &Vec<(String, Json)>, k: &str) -> (r: Result<Price, DecodeError>)
    ensures
        match r {
            Ok(p) => dec_price_v(obj_view(o@), k@) == Ok::<Seq<char>, ErrorKind>(p@) && p.wf(),
            Err(e) => dec_price_v(obj_view(o@), k@) == Err::<Seq<char>, ErrorKind>(e.kind),
        },
{
    match obj_get(o, k) {
        None => Err(DecodeError::new(ErrorKind::MissingRequiredField).at_field(k)),
        Some(Json::Str(t)) => match Price::parse(t.as_str()) {
            Ok(p) => Ok(p),
            Err(e) => Err(e.at_field(k)),
        },
        Some(Json::Num(t)) => match Price::parse(t.as_str()) {
            Ok(p) => Ok(p),
            Err(e) => Err(e.at_field(k)),
        },
        Some(_) => Err(DecodeError::new(ErrorKind::MalformedEnvelope).at_field(k)),
    }
}

/// The address inside a wrapped-address object.
fn wrapped_addr(j: &Json, k: &str) -> (r: Result<Address, DecodeError>)
    ensures
        match r {
            Ok(a) => dec_wrapped_addr_v(j@) == Ok::<Seq<u8>, ErrorKind>(a@) && a.wf(),
            Err(e) => dec_wrapped_addr_v(j@) == Err::<Seq<u8>, ErrorKind>(e.kind),
        },
{
    match j {
        Json::Obj(io) => match obj_get(io, "address") {
            None => Err(DecodeError::new(ErrorKind::MissingRequiredField).at_field(k)),
            Some(Json::Str(t)) => match Address::from_hex_str(t.as_str()) {
                Ok(a) => Ok(a),
                Err(e) => Err(e.at_field(k)),
            },
            Some(_) => Err(DecodeError::new(ErrorKind::MalformedEnvelope).at_field(k)),
        },
        _ => Err(DecodeError::new(ErrorKind::MalformedEnvelope).at_field(k)),
    }
}

/// A required wrapped-address field.
fn field_addr(o: &Vec<(String, Json)>, k: &str) -> (r: Result<Address, DecodeError>)
    ensures
        match r {
            Ok(a) => dec_addr_v(obj_view(o@), k@) == Ok::<Seq<u8>, ErrorKind>(a@) && a.wf(),
            Err(e) => dec_addr_v(obj_view(o@), k@) == Err::<Seq<u8>, ErrorKind>(e.kind),
        },
{
    match obj_get(o, k) {
        None => Err(DecodeError::new(ErrorKind::MissingRequiredField).at_field(k)),
        Some(j) => wrapped_addr(j, k),
    }
}

/// An optional wrapped-address field.
fn field_addr_opt(o: &Vec<(String, Json)>, k: &str) -> (r: Result<Option<Address>, DecodeError>)
    ensures
        match r {
            Ok(a) => dec_addr_opt_v(obj_view(o@), k@) == Ok::<Option<Seq<u8>>, ErrorKind>(
                crate::schema::view_opt(a),
            ) && (a is Some ==> a->0.wf()),
            Err(e) => dec_addr_opt_v(obj_view(o@), k@) == Err::<Option<Seq<u8>>, ErrorKind>(
                e.kind,
            ),
        },
{
    match obj_get(o, k) {
        None => Ok(None),
        Some(Json::Null) => Ok(None),
        Some(j) => match wrapped_addr(j, k) {
            Ok(a) => Ok(Some(a)),
            Err(e) => Err(e),
        },
    }
}

/// An optional listing-type field.
fn field_listing_opt(o: &Vec<(String, Json)>, k: &str) -> (r: Result<
    Option<ListingType>,
    DecodeError,
>)
    ensures
        match r {
            Ok(l) => dec_listing_opt_v(obj_view(o@), k@) == Ok::<Option<ListingType>, ErrorKind>(
                l,
            ),
            Err(e) => dec_listing_opt_v(obj_view(o@), k@) == Err::<
                Option<ListingType>,
                ErrorKind,
            >(e.kind),
        },
{
    match obj_get(o, k) {
        None => Ok(None),
        Some(Json::Null) => Ok(None),
        Some(Json::Str(t)) => match ListingType::from_name(t.as_str()) {
            Some(l) => Ok(Some(l)),
            None => Err(
                DecodeError::new(ErrorKind::MalformedEnvelope).at_field(k).with_detail(t.as_str()),
            ),
        },
        Some(_) => Err(DecodeError::new(ErrorKind::MalformedEnvelope).at_field(k)),
    }
}

/// An optional string field.
fn field_opt_string(o: &Vec<(String, Json)>, k: &str) -> (r: Result<Option<String>, DecodeError>)
    ensures
        match r {
            Ok(s) => dec_opt_str_v(obj_view(o@), k@) == Ok::<Option<Seq<char>>, ErrorKind>(
                crate::schema::view_opt(s),
            ),
            Err(e) => dec_opt_str_v(obj_view(o@), k@) == Err::<Option<Seq<char>>, ErrorKind>(
                e.kind,
            ),
        },
{
    match obj_get(o, k) {
        None => Ok(None),
        Some(Json::Null) => Ok(None),
        Some(Json::Str(t)) => Ok(Some(t.clone())),
        Some(_) => Err(DecodeError::new(ErrorKind::MalformedEnvelope).at_field(k)),
    }
}

/// An optional URL field.
fn field_opt_url(o: &Vec<(String, Json)>, k: &str) -> (r: Result<Option<UrlText>, DecodeError>)
    ensures
        match r {
            Ok(u) => dec_opt_url_v(obj_view(o@), k@) == Ok::<Option<Seq<char>>, ErrorKind>(
                crate::schema::view_opt(u),
            ) && (u is Some ==> u->0.wf()),
            Err(e) => dec_opt_url_v(obj_view(o@), k@) == Err::<Option<Seq<char>>, ErrorKind>(
                e.kind,
            ),
        },
{
    match obj_get(o, k) {
        None => Ok(None),
        Some(Json::Null) => Ok(None),
        Some(Json::Str(t)) => match UrlText::parse(t.as_str()) {
            Ok(u) => Ok(Some(u)),
            Err(e) => Err(e.at_field(k)),
        },
        Some(_) => Err(DecodeError::new(ErrorKind::MalformedEnvelope).at_field(k)),
    }
}

/// A required bare-hexadecimal address field.
fn field_hex20(o: &Vec<(String, Json)>, k: &str) -> (r: Result<Address, DecodeError>)
    ensures
        match r {
            Ok(a) => dec_hex_v(obj_view(o@), k@, 20) == Ok::<Seq<u8>, ErrorKind>(a@) && a.wf(),
            Err(e) => dec_hex_v(obj_view(o@), k@, 20) == Err::<Seq<u8>, ErrorKind>(e.kind),
        },
{
    match obj_get(o, k) {
        None => Err(DecodeError::new(ErrorKind::MissingRequiredField).at_field(k)),
        Some(Json::Str(t)) => match Address::from_hex_str(t.as_str()) {
            Ok(a) => Ok(a),
            Err(e) => Err(e.at_field(k)),
        },
        Some(_) => Err(DecodeError::new(ErrorKind::MalformedEnvelope).at_field(k)),
    }
}

/// A required bare-hexadecimal hash field.
fn field_hex32(o: &Vec<(String, Json)>, k: &str) -> (r: Result<H256, DecodeError>)
    ensures
        match r {
            Ok(a) => dec_hex_v(obj_view(o@), k@, 32) == Ok::<Seq<u8>, ErrorKind>(a@) && a.wf(),
            Err(e) => dec_hex_v(obj_view(o@), k@, 32) == Err::<Seq<u8>, ErrorKind>(e.kind),
        },
{
    match obj_get(o, k) {
        None => Err(DecodeError::new(ErrorKind::MissingRequiredField).at_field(k)),
        Some(Json::Str(t)) => match H256::from_hex_str(t.as_str()) {
            Ok(a) => Ok(a),
            Err(e) => Err(e.at_field(k)),
        },
        Some(_) => Err(DecodeError::new(ErrorKind::MalformedEnvelope).at_field(k)),
    }
}

/// A required chain field.
fn field_chain(o: &Vec<(String, Json)>, k: &str) -> (r: Result<Chain, DecodeError>)
    ensures
        match r {
            Ok(c) => dec_chain_v(obj_view(o@), k@) == Ok::<Chain, ErrorKind>(c),
            Err(e) => dec_chain_v(obj_view(o@), k@) == Err::<Chain, ErrorKind>(e.kind),
        },
{
    match obj_get(o, k) {
        None => Err(DecodeError::new(ErrorKind::MissingRequiredField).at_field(k)),
        Some(Json::Obj(io)) => match obj_get(io, "name") {
            None => Err(DecodeError::new(ErrorKind::MissingRequiredField).at_field(k)),
            Some(Json::Str(t)) => match Chain::from_name(t.as_str()) {
                Some(c) => Ok(c),
                None => Err(
                    DecodeError::new(ErrorKind::UnknownChain).at_field(k).with_detail(t.as_str()),
                ),
            },
            Some(_) => Err(DecodeError::new(ErrorKind::MalformedEnvelope).at_field(k)),
        },
        Some(_) => Err(DecodeError::new(ErrorKind::MalformedEnvelope).at_field(k)),
    }
}

/// A required collection field.
fn field_collection(o: &Vec<(String, Json)>, k: &str) -> (r: Result<Collection, DecodeError>)
    ensures
        match r {
            Ok(c) => dec_collection_v(obj_view(o@), k@) == Ok::<Seq<char>, ErrorKind>(c@),
            Err(e) => dec_collection_v(obj_view(o@), k@) == Err::<Seq<char>, ErrorKind>(e.kind),
        },
{
    match obj_get(o, k) {
        None => Err(DecodeError::new(ErrorKind::MissingRequiredField).at_field(k)),
        Some(Json::Obj(io)) => match obj_get(io, "slug") {
            None => Err(DecodeError::new(ErrorKind::MissingRequiredField).at_field(k)),
            Some(Json::Str(t)) => Ok(Collection::new(t.clone())),
            Some(_) => Err(DecodeError::new(ErrorKind::MalformedEnvelope).at_field(k)),
        },
        Some(_) => Err(DecodeError::new(ErrorKind::MalformedEnvelope).at_field(k)),
    }
}

/// An optional traits field: an array of opaque values, empty when absent.
fn field_traits(o: &Vec<(String, Json)>, k: &str) -> (r: Result<Vec<Json>, DecodeError>)
    ensures
        match r {
            Ok(v) => dec_traits_v(obj_view(o@), k@) == Ok::<Seq<crate::json::JsonV>, ErrorKind>(
                arr_view(v@),
            ),
            Err(e) => dec_traits_v(obj_view(o@), k@) == Err::<
                Seq<crate::json::JsonV>,
                ErrorKind,
            >(e.kind),
        },
{
    match obj_get(o, k) {
        None => {
            let v: Vec<Json> = Vec::new();
            proof {
                assert(arr_view(v@) =~= Seq::<crate::json::JsonV>::empty());
            }
            Ok(v)
        },
        Some(Json::Arr(items)) => {
            let v = clone_arr(items);
            proof {
                crate::json::lemma_arr_view(v@);
                crate::json::lemma_arr_view(items@);
                assert(arr_view(v@) =~= arr_view(items@));
            }
            Ok(v)
        },
        Some(_) => Err(DecodeError::new(ErrorKind::MalformedEnvelope).at_field(k)),
    }
}

/// Position of the first `/` in `s` at or after `from`.
fn find_slash(s: &str, from: usize) -> (r: Option<usize>)
    requires
        from <= s@.len(),
    ensures
        match r {
            Some(i) => find_char(s@, '/', from as int) == Some(i as int) && from <= i
                && i < s@.len(),
            None => find_char(s@, '/', from as int) is None,
        },
{
    proof {
        lemma_find_char(s@, '/', from as int);
    }
    let n = s.unicode_len();
    let mut i: usize = from;
    while i < n
        invariant
            from <= i <= n,
            n == s@.len(),
            forall|j: int| from <= j < i ==> s@[j] != '/',
        decreases n - i,
    {
        if s.get_char(i) == '/' {
            proof {
                lemma_find_char(s@, '/', from as int);
            }
            return Some(i);
        }
        i += 1;
    }
    None
}

/// Decode a composite identifier string.
pub fn decode_nft_id_str(s: &str) -> (r: Result<NftId, DecodeError>)
    ensures
        match r {
            Ok(n) => dec_nft_id_text(s@) == Ok::<crate::schema::NftIdV, ErrorKind>(n@)
                && crate::schema::nft_id_wf(n@),
            Err(e) => dec_nft_id_text(s@) == Err::<crate::schema::NftIdV, ErrorKind>(e.kind),
        },
{
    let len = s.unicode_len();
    let i = match find_slash(s, 0) {
        Some(i) => i,
        None => {
            return Err(DecodeError::new(ErrorKind::InvalidIdentifier).with_detail(s));
        },
    };
    let j = match find_slash(s, i + 1) {
        Some(j) => j,
        None => {
            return Err(DecodeError::new(ErrorKind::InvalidIdentifier).with_detail(s));
        },
    };
    let name_part = s.substring_char(0, i);
    let addr_part = s.substring_char(i + 1, j);
    let id_part = s.substring_char(j + 1, len);
    proof {
        assert(name_part@ =~= s@.take(i as int));
        assert(addr_part@ =~= s@.subrange(i as int + 1, j as int));
        assert(id_part@ =~= s@.skip(j as int + 1));
    }
    let network = match Chain::from_name(name_part) {
        Some(c) => c,
        None => {
            return Err(DecodeError::new(ErrorKind::UnknownChain).with_detail(name_part));
        },
    };
    let address = match Address::from_hex_str(addr_part) {
        Ok(a) => a,
        Err(e) => {
            return Err(e);
        },
    };
    let id = match U256::from_dec_str(id_part) {
        Ok(u) => u,
        Err(e) => {
            return Err(e);
        },
    };
    Ok(NftId { network, address, id })
}

/// A required composite-identifier field.
fn field_nft_id(o: &Vec<(String, Json)>, k: &str) -> (r: Result<NftId, DecodeError>)
    ensures
        match r {
            Ok(n) => dec_nft_id_v(obj_view(o@), k@) == Ok::<crate::schema::NftIdV, ErrorKind>(n@)
                && crate::schema::nft_id_wf(n@),
            Err(e) => dec_nft_id_v(obj_view(o@), k@) == Err::<crate::schema::NftIdV, ErrorKind>(
                e.kind,
            ),
        },
{
    match obj_get(o, k) {
        None => Err(DecodeError::new(ErrorKind::MissingRequiredField).at_field(k)),
        Some(Json::Str(t)) => match decode_nft_id_str(t.as_str()) {
            Ok(n) => Ok(n),
            Err(e) => Err(e.at_field(k)),
        },
        Some(_) => Err(DecodeError::new(ErrorKind::MalformedEnvelope).at_field(k)),
    }
}

/// The metadata record.
fn decode_metadata_obj(mo: &Vec<(String, Json)>) -> (r: Result<Metadata, DecodeError>)
    ensures
        match r {
            Ok(m) => dec_metadata_obj(obj_view(mo@)) == Ok::<crate::schema::MetadataV, ErrorKind>(
                m@,
            ),
            Err(e) => dec_metadata_obj(obj_view(mo@)) == Err::<
                crate::schema::MetadataV,
                ErrorKind,
            >(e.kind),
        },
{
    let name = match field_opt_string(mo, "name") {
        Ok(v) => v,
        Err(e) => {
            return Err(e);
        },
    };
    let description = match field_opt_string(mo, "description") {
        Ok(v) => v,
        Err(e) => {
            return Err(e);
        },
    };
    let image_url = match field_opt_url(mo, "image_url") {
        Ok(v) => v,
        Err(e) => {
            return Err(e);
        },
    };
    let animation_url = match field_opt_url(mo, "animation_url") {
        Ok(v) => v,
        Err(e) => {
            return Err(e);
        },
    };
    let metadata_url = match field_opt_url(mo, "metadata_url") {
        Ok(v) => v,
        Err(e) => {
            return Err(e);
        },
    };
    Ok(Metadata { name, description, image_url, animation_url, metadata_url })
}

/// A required metadata field.
fn field_metadata(o: &Vec<(String, Json)>, k: &str) -> (r: Result<Metadata, DecodeError>)
    ensures
        match r {
            Ok(m) => dec_metadata_v(obj_view(o@), k@) == Ok::<crate::schema::MetadataV, ErrorKind>(
                m@,
            ),
            Err(e) => dec_metadata_v(obj_view(o@), k@) == Err::<
                crate::schema::MetadataV,
                ErrorKind,
            >(e.kind),
        },
{
    match obj_get(o, k) {
        None => Err(DecodeError::new(ErrorKind::MissingRequiredField).at_field(k)),
        Some(Json::Obj(mo)) => decode_metadata_obj(mo),
        Some(_) => Err(DecodeError::new(ErrorKind::MalformedEnvelope).at_field(k)),
    }
}

/// A required item field.
fn field_item(o: &Vec<(String, Json)>, k: &str) -> (r: Result<Item, DecodeError>)
    ensures
        match r {
            Ok(i) => dec_item_v(obj_view(o@), k@) == Ok::<crate::schema::ItemV, ErrorKind>(i@),
            Err(e) => dec_item_v(obj_view(o@), k@) == Err::<crate::schema::ItemV, ErrorKind>(
                e.kind,
            ),
        },
{
    match obj_get(o, k) {
        None => Err(DecodeError::new(ErrorKind::MissingRequiredField).at_field(k)),
        Some(Json::Obj(io)) => {
            let nft_id = match field_nft_id(io, "nft_id") {
                Ok(v) => v,
                Err(e) => {
                    return Err(e);
                },
            };
            let permalink = match field_url(io, "permalink") {
                Ok(v) => v,
                Err(e) => {
                    return Err(e);
                },
            };
            let chain = match field_chain(io, "chain") {
                Ok(v) => v,
                Err(e) => {
                    return Err(e);
                },
            };
            let metadata = match field_metadata(io, "metadata") {
                Ok(v) => v,
                Err(e) => {
                    return Err(e);
                },
            };
            Ok(Item { nft_id, permalink, chain, metadata })
        },
        Some(_) => Err(DecodeError::new(ErrorKind::MalformedEnvelope).at_field(k)),
    }
}

/// The context flattened into every payload object.
fn decode_context(o: &Vec<(String, Json)>) -> (r: Result<Context, DecodeError>)
    ensures
        match r {
            Ok(c) => dec_context_v(obj_view(o@)) == Ok::<crate::schema::ContextV, ErrorKind>(c@),
            Err(e) => dec_context_v(obj_view(o@)) == Err::<crate::schema::ContextV, ErrorKind>(
                e.kind,
            ),
        },
{
    let collection = match field_collection(o, "collection") {
        Ok(v) => v,
        Err(e) => {
            return Err(e);
        },
    };
    let item = match field_item(o, "item") {
        Ok(v) => v,
        Err(e) => {
            return Err(e);
        },
    };
    Ok(Context { collection, item })
}

/// A required payment-token field.
fn field_payment_token(o: &Vec<(String, Json)>, k: &str) -> (r: Result<PaymentToken, DecodeError>)
    ensures
        match r {
            Ok(p) => dec_payment_token_v(obj_view(o@), k@) == Ok::<
                crate::schema::PaymentTokenV,
                ErrorKind,
            >(p@),
            Err(e) => dec_payment_token_v(obj_view(o@), k@) == Err::<
                crate::schema::PaymentTokenV,
                ErrorKind,
            >(e.kind),
        },
{
    match obj_get(o, k) {
        None => Err(DecodeError::new(ErrorKind::MissingRequiredField).at_field(k)),
        Some(Json::Obj(po)) => {
            let address = match field_hex20(po, "address") {
                Ok(v) => v,
                Err(e) => {
                    return Err(e);
                },
            };
            let decimals = match field_u64(po, "decimals") {
                Ok(v) => v,
                Err(e) => {
                    return Err(e);
                },
            };
            let eth_price = match field_price(po, "eth_price") {
                Ok(v) => v,
                Err(e) => {
                    return Err(e);
                },
            };
            let name = match field_string(po, "name") {
                Ok(v) => v,
                Err(e) => {
                    return Err(e);
                },
            };
            let symbol = match field_string(po, "symbol") {
                Ok(v) => v,
                Err(e) => {
                    return Err(e);
                },
            };
            let usd_price = match field_price(po, "usd_price") {
                Ok(v) => v,
                Err(e) => {
                    return Err(e);
                },
            };
            Ok(PaymentToken { address, decimals, eth_price, name, symbol, usd_price })
        },
        Some(_) => Err(DecodeError::new(ErrorKind::MalformedEnvelope).at_field(k)),
    }
}

/// A required transaction field.
fn field_transaction(o: &Vec<(String, Json)>, k: &str) -> (r: Result<Transaction, DecodeError>)
    ensures
        match r {
            Ok(t) => dec_transaction_v(obj_view(o@), k@) == Ok::<
                crate::schema::TransactionV,
                ErrorKind,
            >(t@),
            Err(e) => dec_transaction_v(obj_view(o@), k@) == Err::<
                crate::schema::TransactionV,
                ErrorKind,
            >(e.kind),
        },
{
    match obj_get(o, k) {
        None => Err(DecodeError::new(ErrorKind::MissingRequiredField).at_field(k)),
        Some(Json::Obj(to)) => {
            let hash = match field_hex32(to, "hash") {
                Ok(v) => v,
                Err(e) => {
                    return Err(e);
                },
            };
            let timestamp = match field_timestamp(to, "timestamp") {
                Ok(v) => v,
                Err(e) => {
                    return Err(e);
                },
            };
            Ok(Transaction { hash, timestamp })
        },
        Some(_) => Err(DecodeError::new(ErrorKind::MalformedEnvelope).at_field(k)),
    }
}

/// Decode the payload object of an `item_listed` event.
pub fn decode_item_listed(o: &Vec<(String, Json)>) -> (r: Result<ItemListedData, DecodeError>)
    ensures
        match r {
            Ok(d) => dec_listed_v(obj_view(o@)) == Ok::<crate::schema::ItemListedDataV, ErrorKind>(
                d@,
            ),
            Err(e) => dec_listed_v(obj_view(o@)) == Err::<
                crate::schema::ItemListedDataV,
                ErrorKind,
            >(e.kind),
        },
{
    let context = match decode_context(o) {
        Ok(v) => v,
        Err(e) => {
            return Err(e);
        },
    };
    let event_timestamp = match field_timestamp(o, "event_timestamp") {
        Ok(v) => v,
        Err(e) => {
            return Err(e);
        },
    };
    let base_price = match field_u256(o, "base_price") {
        Ok(v) => v,
        Err(e) => {
            return Err(e);
        },
    };
    let expiration_date = match field_timestamp(o, "expiration_date") {
        Ok(v) => v,
        Err(e) => {
            return Err(e);
        },
    };
    let is_private = match field_bool(o, "is_private") {
        Ok(v) => v,
        Err(e) => {
            return Err(e);
        },
    };
    let listing_date = match field_timestamp(o, "listing_date") {
        Ok(v) => v,
        Err(e) => {
            return Err(e);
        },
    };
    let listing_type = match field_listing_opt(o, "listing_type") {
        Ok(v) => v,
        Err(e) => {
            return Err(e);
        },
    };
    let maker = match field_addr(o, "maker") {
        Ok(v) => v,
        Err(e) => {
            return Err(e);
        },
    };
    let payment_token = match field_payment_token(o, "payment_token") {
        Ok(v) => v,
        Err(e) => {
            return Err(e);
        },
    };
    let quantity = match field_u64(o, "quantity") {
        Ok(v) => v,
        Err(e) => {
            return Err(e);
        },
    };
    let taker = match field_addr_opt(o, "taker") {
        Ok(v) => v,
        Err(e) => {
            return Err(e);
        },
    };
    Ok(
        ItemListedData {
            context,
            event_timestamp,
            base_price,
            expiration_date,
            is_private,
            listing_date,
            listing_type,
            maker,
            payment_token,
            quantity,
            taker,
        },
    )
}

/// Decode the payload object of an `item_sold` event.
pub fn decode_item_sold(o: &Vec<(String, Json)>) -> (r: Result<ItemSoldData, DecodeError>)
    ensures
        match r {
            Ok(d) => dec_sold_v(obj_view(o@)) == Ok::<crate::schema::ItemSoldDataV, ErrorKind>(d@),
            Err(e) => dec_sold_v(obj_view(o@)) == Err::<crate::schema::ItemSoldDataV, ErrorKind>(
                e.kind,
            ),
        },
{
    let context = match decode_context(o) {
        Ok(v) => v,
        Err(e) => {
            return Err(e);
        },
    };
    let event_timestamp = match field_timestamp(o, "event_timestamp") {
        Ok(v) => v,
        Err(e) => {
            return Err(e);
        },
    };
    let closing_date = match field_timestamp(o, "closing_date") {
        Ok(v) => v,
        Err(e) => {
            return Err(e);
        },
    };
    let is_private = match field_bool(o, "is_private") {
        Ok(v) => v,
        Err(e) => {
            return Err(e);
        },
    };
    let listing_type = match field_listing_opt(o, "listing_type") {
        Ok(v) => v,
        Err(e) => {
            return Err(e);
        },
    };
    let maker = match field_addr(o, "maker") {
        Ok(v) => v,
        Err(e) => {
            return Err(e);
        },
    };
    let payment_token = match field_payment_token(o, "payment_token") {
        Ok(v) => v,
        Err(e) => {
            return Err(e);
        },
    };
    let quantity = match field_u64(o, "quantity") {
        Ok(v) => v,
        Err(e) => {
            return Err(e);
        },
    };
    let sale_price = match field_u256(o, "sale_price") {
        Ok(v) => v,
        Err(e) => {
            return Err(e);
        },
    };
    let taker = match field_addr(o, "taker") {
        Ok(v) => v,
        Err(e) => {
            return Err(e);
        },
    };
    let transaction = match field_transaction(o, "transaction") {
        Ok(v) => v,
        Err(e) => {
            return Err(e);
        },
    };
    Ok(
        ItemSoldData {
            context,
            event_timestamp,
            closing_date,
            is_private,
            listing_type,
            maker,
            payment_token,
            quantity,
            sale_price,
            taker,
            transaction,
        },
    )
}

/// Decode the payload object of an `item_transferred` event.
pub fn decode_item_transferred(o: &Vec<(String, Json)>) -> (r: Result<
    ItemTransferredData,
    DecodeError,
>)
    ensures
        match r {
            Ok(d) => dec_transferred_v(obj_view(o@)) == Ok::<
                crate::schema::ItemTransferredDataV,
                ErrorKind,
            >(d@),
            Err(e) => dec_transferred_v(obj_view(o@)) == Err::<
                crate::schema::ItemTransferredDataV,
                ErrorKind,
            >(e.kind),
        },
{
    let context = match decode_context(o) {
        Ok(v) => v,
        Err(e) => {
            return Err(e);
        },
    };
    let event_timestamp = match field_timestamp(o, "event_timestamp") {
        Ok(v) => v,
        Err(e) => {
            return Err(e);
        },
    };
    let transaction = match field_transaction(o, "transaction") {
        Ok(v) => v,
        Err(e) => {
            return Err(e);
        },
    };
    let from_account = match field_addr(o, "from_account") {
        Ok(v) => v,
        Err(e) => {
            return Err(e);
        },
    };
    let to_account = match field_addr(o, "to_account") {
        Ok(v) => v,
        Err(e) => {
            return Err(e);
        },
    };
    let quantity = match field_u64(o, "quantity") {
        Ok(v) => v,
        Err(e) => {
            return Err(e);
        },
    };
    Ok(
        ItemTransferredData {
            context,
            event_timestamp,
            transaction,
            from_account,
            to_account,
            quantity,
        },
    )
}

/// Decode the payload object of an `item_metadata_updated` event.
pub fn decode_item_metadata_updated(o: &Vec<(String, Json)>) -> (r: Result<
    ItemMetadataUpdatedData,
    DecodeError,
>)
    ensures
        match r {
            Ok(d) => dec_metadata_updated_v(obj_view(o@)) == Ok::<
                crate::schema::ItemMetadataUpdatedDataV,
                ErrorKind,
            >(d@),
            Err(e) => dec_metadata_updated_v(obj_view(o@)) == Err::<
                crate::schema::ItemMetadataUpdatedDataV,
                ErrorKind,
            >(e.kind),
        },
{
    let context = match decode_context(o) {
        Ok(v) => v,
        Err(e) => {
            return Err(e);
        },
    };
    let name = match field_opt_string(o, "name") {
        Ok(v) => v,
        Err(e) => {
            return Err(e);
        },
    };
    let description = match field_opt_string(o, "description") {
        Ok(v) => v,
        Err(e) => {
            return Err(e);
        },
    };
    let image_preview_url = match field_opt_url(o, "image_preview_url") {
        Ok(v) => v,
        Err(e) => {
            return Err(e);
        },
    };
    let animation_url = match field_opt_url(o, "animation_url") {
        Ok(v) => v,
        Err(e) => {
            return Err(e);
        },
    };
    let background_color = match field_opt_string(o, "background_color") {
        Ok(v) => v,
        Err(e) => {
            return Err(e);
        },
    };
    let metadata_url = match field_opt_url(o, "metadata_url") {
        Ok(v) => v,
        Err(e) => {
            return Err(e);
        },
    };
    let traits = match field_traits(o, "traits") {
        Ok(v) => v,
        Err(e) => {
            return Err(e);
        },
    };
    Ok(
        ItemMetadataUpdatedData {
            context,
            name,
            description,
            image_preview_url,
            animation_url,
            background_color,
            metadata_url,
            traits,
        },
    )
}

/// Decode the payload object of an `item_cancelled` event.
pub fn decode_item_cancelled(o: &Vec<(String, Json)>) -> (r: Result<
    ItemCancelledData,
    DecodeError,
>)
    ensures
        match r {
            Ok(d) => dec_cancelled_v(obj_view(o@)) == Ok::<
                crate::schema::ItemCancelledDataV,
                ErrorKind,
            >(d@),
            Err(e) => dec_cancelled_v(obj_view(o@)) == Err::<
                crate::schema::ItemCancelledDataV,
                ErrorKind,
            >(e.kind),
        },
{
    let context = match decode_context(o) {
        Ok(v) => v,
        Err(e) => {
            return Err(e);
        },
    };
    let event_timestamp = match field_timestamp(o, "event_timestamp") {
        Ok(v) => v,
        Err(e) => {
            return Err(e);
        },
    };
    let listing_type = match field_listing_opt(o, "listing_type") {
        Ok(v) => v,
        Err(e) => {
            return Err(e);
        },
    };
    let payment_token = match field_payment_token(o, "payment_token") {
        Ok(v) => v,
        Err(e) => {
            return Err(e);
        },
    };
    let quantity = match field_u64(o, "quantity") {
        Ok(v) => v,
        Err(e) => {
            return Err(e);
        },
    };
    let transaction = match field_transaction(o, "transaction") {
        Ok(v) => v,
        Err(e) => {
            return Err(e);
        },
    };
    Ok(
        ItemCancelledData {
            context,
            event_timestamp,
            listing_type,
            payment_token,
            quantity,
            transaction,
        },
    )
}

/// Decode the payload object of an `item_received_offer` event.
pub fn decode_item_received_offer(o: &Vec<(String, Json)>) -> (r: Result<
    ItemReceivedOfferData,
    DecodeError,
>)
    ensures
        match r {
            Ok(d) => dec_offer_v(obj_view(o@)) == Ok::<
                crate::schema::ItemReceivedOfferDataV,
                ErrorKind,
            >(d@),
            Err(e) => dec_offer_v(obj_view(o@)) == Err::<
                crate::schema::ItemReceivedOfferDataV,
                ErrorKind,
            >(e.kind),
        },
{
    let context = match decode_context(o) {
        Ok(v) => v,
        Err(e) => {
            return Err(e);
        },
    };
    let event_timestamp = match field_timestamp(o, "event_timestamp") {
        Ok(v) => v,
        Err(e) => {
            return Err(e);
        },
    };
    let base_price = match field_u256(o, "base_price") {
        Ok(v) => v,
        Err(e) => {
            return Err(e);
        },
    };
    let created_date = match field_timestamp(o, "created_date") {
        Ok(v) => v,
        Err(e) => {
            return Err(e);
        },
    };
    let expiration_date = match field_timestamp(o, "expiration_date") {
        Ok(v) => v,
        Err(e) => {
            return Err(e);
        },
    };
    let maker = match field_addr(o, "maker") {
        Ok(v) => v,
        Err(e) => {
            return Err(e);
        },
    };
    let payment_token = match field_payment_token(o, "payment_token") {
        Ok(v) => v,
        Err(e) => {
            return Err(e);
        },
    };
    let quantity = match field_u64(o, "quantity") {
        Ok(v) => v,
        Err(e) => {
            return Err(e);
        },
    };
    let taker = match field_addr_opt(o, "taker") {
        Ok(v) => v,
        Err(e) => {
            return Err(e);
        },
    };
    Ok(
        ItemReceivedOfferData {
            context,
            event_timestamp,
            base_price,
            created_date,
            expiration_date,
            maker,
            payment_token,
            quantity,
            taker,
        },
    )
}

/// Decode the payload object of an `item_received_bid` event.
pub fn decode_item_received_bid(o: &Vec<(String, Json)>) -> (r: Result<
    ItemReceivedBidData,
    DecodeError,
>)
    ensures
        match r {
            Ok(d) => dec_bid_v(obj_view(o@)) == Ok::<
                crate::schema::ItemReceivedBidDataV,
                ErrorKind,
            >(d@),
            Err(e) => dec_bid_v(obj_view(o@)) == Err::<
                crate::schema::ItemReceivedBidDataV,
                ErrorKind,
            >(e.kind),
        },
{
    let context = match decode_context(o) {
        Ok(v) => v,
        Err(e) => {
            return Err(e);
        },
    };
    let event_timestamp = match field_timestamp(o, "event_timestamp") {
        Ok(v) => v,
        Err(e) => {
            return Err(e);
        },
    };
    let base_price = match field_u256(o, "base_price") {
        Ok(v) => v,
        Err(e) => {
            return Err(e);
        },
    };
    let created_date = match field_timestamp(o, "created_date") {
        Ok(v) => v,
        Err(e) => {
            return Err(e);
        },
    };
    let expiration_date = match field_timestamp(o, "expiration_date") {
        Ok(v) => v,
        Err(e) => {
            return Err(e);
        },
    };
    let maker = match field_addr(o, "maker") {
        Ok(v) => v,
        Err(e) => {
            return Err(e);
        },
    };
    let payment_token = match field_payment_token(o, "payment_token") {
        Ok(v) => v,
        Err(e) => {
            return Err(e);
        },
    };
    let quantity = match field_u64(o, "quantity") {
        Ok(v) => v,
        Err(e) => {
            return Err(e);
        },
    };
    let taker = match field_addr_opt(o, "taker") {
        Ok(v) => v,
        Err(e) => {
            return Err(e);
        },
    };
    Ok(
        ItemReceivedBidData {
            context,
            event_timestamp,
            base_price,
            created_date,
            expiration_date,
            maker,
            payment_token,
            quantity,
            taker,
        },
    )
}

/// Decode the payload object selected by the discriminant tag. Unknown
/// tags fail: the set of event kinds is closed.
pub fn decode_payload(tag: &str, o: &Vec<(String, Json)>) -> (r: Result<Payload, DecodeError>)
    ensures
        match r {
            Ok(p) => dec_payload_v(tag@, obj_view(o@)) == Ok::<
                crate::schema::PayloadV,
                ErrorKind,
            >(p@),
            Err(e) => dec_payload_v(tag@, obj_view(o@)) == Err::<
                crate::schema::PayloadV,
                ErrorKind,
            >(e.kind),
        },
{
    if str_eq(tag, "item_listed") {
        match decode_item_listed(o) {
            Ok(d) => Ok(Payload::ItemListed(d)),
            Err(e) => Err(e),
        }
    } else if str_eq(tag, "item_sold") {
        match decode_item_sold(o) {
            Ok(d) => Ok(Payload::ItemSold(d)),
            Err(e) => Err(e),
        }
    } else if str_eq(tag, "item_transferred") {
        match decode_item_transferred(o) {
            Ok(d) => Ok(Payload::ItemTransferred(d)),
            Err(e) => Err(e),
        }
    } else if str_eq(tag, "item_metadata_updated") {
        match decode_item_metadata_updated(o) {
            Ok(d) => Ok(Payload::ItemMetadataUpdated(d)),
            Err(e) => Err(e),
        }
    } else if str_eq(tag, "item_cancelled") {
        match decode_item_cancelled(o) {
            Ok(d) => Ok(Payload::ItemCancelled(d)),
            Err(e) => Err(e),
        }
    } else if str_eq(tag, "item_received_offer") {
        match decode_item_received_offer(o) {
            Ok(d) => Ok(Payload::ItemReceivedOffer(d)),
            Err(e) => Err(e),
        }
    } else if str_eq(tag, "item_received_bid") {
        match decode_item_received_bid(o) {
            Ok(d) => Ok(Payload::ItemReceivedBid(d)),
            Err(e) => Err(e),
        }
    } else {
        Err(DecodeError::new(ErrorKind::MalformedEnvelope).at_field("event_type").with_detail(tag))
    }
}

/// Decode one JSON document into a typed event. The document must be an
/// object carrying `sent_at`, `event_type` and `payload`; other keys are
/// ignored, and their order does not matter.
#[verifier::rlimit(50)]
pub fn decode_stream_event(j: &Json) -> (r: Result<StreamEvent, DecodeError>)
    ensures
        match r {
            Ok(ev) => dec_stream_event_v(j@) == Ok::<crate::schema::StreamEventV, ErrorKind>(ev@),
            Err(e) => dec_stream_event_v(j@) == Err::<crate::schema::StreamEventV, ErrorKind>(
                e.kind,
            ),
        },
{
    match j {
        Json::Obj(o) => {
            let sent_at = match field_timestamp(o, "sent_at") {
                Ok(v) => v,
                Err(e) => {
                    return Err(
                        DecodeError { kind: ErrorKind::MalformedEnvelope, ..e },
                    );
                },
            };
            let tag = match field_string(o, "event_type") {
                Ok(v) => v,
                Err(e) => {
                    return Err(
                        DecodeError { kind: ErrorKind::MalformedEnvelope, ..e },
                    );
                },
            };
            match obj_get(o, "payload") {
                None => Err(DecodeError::new(ErrorKind::MalformedEnvelope).at_field("payload")),
                Some(Json::Obj(po)) => {
                    let payload = match decode_payload(tag.as_str(), po) {
                        Ok(v) => v,
                        Err(e) => {
                            return Err(e);
                        },
                    };
                    Ok(StreamEvent { sent_at, payload })
                },
                Some(_) => Err(DecodeError::new(ErrorKind::MalformedEnvelope).at_field("payload")),
            }
        },
        _ => Err(DecodeError::new(ErrorKind::MalformedEnvelope)),
    }
}

} // verus!
