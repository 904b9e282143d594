//! What decoding and encoding mean, stated over the ghost JSON model.
//!
//! Every executable decoder and encoder is proved against these functions:
//! a decoder returns exactly what its spec function says for the document's
//! view, and an encoder produces exactly the spec function of its value's
//! view. Field lookup ignores the order of keys and any extra keys.

use vstd::prelude::*;

use crate::address::{hex_0x_text, hex_parse};
use crate::chain::{chain_name, chain_of_name, listing_type_name, listing_type_of_name, Chain,
    ListingType};
use crate::error::ErrorKind;
use crate::json::{obj_lookup, JsonV};
use crate::link::url_ok;
use crate::schema::{ContextV, ItemCancelledDataV, ItemListedDataV, ItemMetadataUpdatedDataV,
    ItemReceivedBidDataV, ItemReceivedOfferDataV, ItemSoldDataV, ItemTransferredDataV, ItemV,
    MetadataV, NftIdV, PayloadV, PaymentTokenV, StreamEventV, TransactionV};
use crate::text::{dec_text, find_char, num_syntax, u64_parse};
use crate::time::{rfc3339_micros, TimestampV};
use crate::u256::u256_parse;

verus! {

// ---------------------------------------------------------------------------
// Field decoders
// ---------------------------------------------------------------------------
/// A required string field.
pub open spec fn dec_str_v(o: Seq<(Seq<char>, JsonV)>, k: Seq<char>) -> Result<
    Seq<char>,
    ErrorKind,
> {
    match obj_lookup(o, k) {
        None => Err(ErrorKind::MissingRequiredField),
        Some(JsonV::Str(s)) => Ok(s),
        Some(_) => Err(ErrorKind::MalformedEnvelope),
    }
}

/// A required boolean field.
pub open spec fn dec_bool_v(o: Seq<(Seq<char>, JsonV)>, k: Seq<char>) -> Result<
    bool,
    ErrorKind,
> {
    match obj_lookup(o, k) {
        None => Err(ErrorKind::MissingRequiredField),
        Some(JsonV::Bool(b)) => Ok(b),
        Some(_) => Err(ErrorKind::MalformedEnvelope),
    }
}

/// A required unsigned integer field, carried as a JSON number.
pub open spec fn dec_u64_v(o: Seq<(Seq<char>, JsonV)>, k: Seq<char>) -> Result<u64, ErrorKind> {
    match obj_lookup(o, k) {
        None => Err(ErrorKind::MissingRequiredField),
        Some(JsonV::Num(t)) => match u64_parse(t) {
            Some(v) => Ok(v),
            None => Err(ErrorKind::NumericOverflowOrFormat),
        },
        Some(_) => Err(ErrorKind::MalformedEnvelope),
    }
}

/// A required scaled-integer field: a 256-bit value as a decimal string.
pub open spec fn dec_u256_v(o: Seq<(Seq<char>, JsonV)>, k: Seq<char>) -> Result<
    Seq<char>,
    ErrorKind,
> {
    match obj_lookup(o, k) {
        None => Err(ErrorKind::MissingRequiredField),
        Some(JsonV::Str(t)) => match u256_parse(t) {
            Some(c) => Ok(c),
            None => Err(ErrorKind::NumericOverflowOrFormat),
        },
        Some(_) => Err(ErrorKind::MalformedEnvelope),
    }
}

/// A required timestamp field: ISO-8601 text with offset.
pub open spec fn dec_timestamp_v(o: Seq<(Seq<char>, JsonV)>, k: Seq<char>) -> Result<
    TimestampV,
    ErrorKind,
> {
    match obj_lookup(o, k) {
        None => Err(ErrorKind::MissingRequiredField),
        Some(JsonV::Str(t)) => match rfc3339_micros(t) {
            Some(m) => Ok(TimestampV { text: t, micros: m as int }),
            None => Err(ErrorKind::MalformedEnvelope),
        },
        Some(_) => Err(ErrorKind::MalformedEnvelope),
    }
}

/// A required URL field.
pub open spec fn dec_url_v(o: Seq<(Seq<char>, JsonV)>, k: Seq<char>) -> Result<
    Seq<char>,
    ErrorKind,
> {
    match obj_lookup(o, k) {
        None => Err(ErrorKind::MissingRequiredField),
        Some(JsonV::Str(t)) => if url_ok(t) {
            Ok(t)
        } else {
            Err(ErrorKind::MalformedEnvelope)
        },
        Some(_) => Err(ErrorKind::MalformedEnvelope),
    }
}

/// A required price field: numeric text, quoted or not.
pub open spec fn dec_price_v(o: Seq<(Seq<char>, JsonV)>, k: Seq<char>) -> Result<
    Seq<char>,
    ErrorKind,
> {
    match obj_lookup(o, k) {
        None => Err(ErrorKind::MissingRequiredField),
        Some(JsonV::Str(t)) => if num_syntax(t) {
            Ok(t)
        } else {
            Err(ErrorKind::NumericOverflowOrFormat)
        },
        Some(JsonV::Num(t)) => if num_syntax(t) {
            Ok(t)
        } else {
            Err(ErrorKind::NumericOverflowOrFormat)
        },
        Some(_) => Err(ErrorKind::MalformedEnvelope),
    }
}

/// The 20 bytes of a wrapped-address object `{"address": "0x..."}`.
pub open spec fn dec_wrapped_addr_v(v: JsonV) -> Result<Seq<u8>, ErrorKind> {
    match v {
        JsonV::Obj(io) => match obj_lookup(io, "address"@) {
            None => Err(ErrorKind::MissingRequiredField),
            Some(JsonV::Str(t)) => match hex_parse(t, 20) {
                Some(b) => Ok(b),
                None => Err(ErrorKind::InvalidAddress),
            },
            Some(_) => Err(ErrorKind::MalformedEnvelope),
        },
        _ => Err(ErrorKind::MalformedEnvelope),
    }
}

/// A required wrapped-address field.
pub open spec fn dec_addr_v(o: Seq<(Seq<char>, JsonV)>, k: Seq<char>) -> Result<
    Seq<u8>,
    ErrorKind,
> {
    match obj_lookup(o, k) {
        None => Err(ErrorKind::MissingRequiredField),
        Some(v) => dec_wrapped_addr_v(v),
    }
}

/// An optional wrapped-address field: absence and null both mean none.
pub open spec fn dec_addr_opt_v(o: Seq<(Seq<char>, JsonV)>, k: Seq<char>) -> Result<
    Option<Seq<u8>>,
    ErrorKind,
> {
    match obj_lookup(o, k) {
        None => Ok(None),
        Some(JsonV::Null) => Ok(None),
        Some(v) => match dec_wrapped_addr_v(v) {
            Ok(b) => Ok(Some(b)),
            Err(e) => Err(e),
        },
    }
}

/// An optional listing-type field: absence and null both mean a buyout.
pub open spec fn dec_listing_opt_v(o: Seq<(Seq<char>, JsonV)>, k: Seq<char>) -> Result<
    Option<ListingType>,
    ErrorKind,
> {
    match obj_lookup(o, k) {
        None => Ok(None),
        Some(JsonV::Null) => Ok(None),
        Some(JsonV::Str(t)) => match listing_type_of_name(t) {
            Some(l) => Ok(Some(l)),
            None => Err(ErrorKind::MalformedEnvelope),
        },
        Some(_) => Err(ErrorKind::MalformedEnvelope),
    }
}

/// An optional string field: absence and null both mean none.
pub open spec fn dec_opt_str_v(o: Seq<(Seq<char>, JsonV)>, k: Seq<char>) -> Result<
    Option<Seq<char>>,
    ErrorKind,
> {
    match obj_lookup(o, k) {
        None => Ok(None),
        Some(JsonV::Null) => Ok(None),
        Some(JsonV::Str(t)) => Ok(Some(t)),
        Some(_) => Err(ErrorKind::MalformedEnvelope),
    }
}

/// An optional URL field: absence and null both mean none.
pub open spec fn dec_opt_url_v(o: Seq<(Seq<char>, JsonV)>, k: Seq<char>) -> Result<
    Option<Seq<char>>,
    ErrorKind,
> {
    match obj_lookup(o, k) {
        None => Ok(None),
        Some(JsonV::Null) => Ok(None),
        Some(JsonV::Str(t)) => if url_ok(t) {
            Ok(Some(t))
        } else {
            Err(ErrorKind::MalformedEnvelope)
        },
        Some(_) => Err(ErrorKind::MalformedEnvelope),
    }
}

/// A required bare hexadecimal field of `n` bytes.
pub open spec fn dec_hex_v(o: Seq<(Seq<char>, JsonV)>, k: Seq<char>, n: int) -> Result<
    Seq<u8>,
    ErrorKind,
> {
    match obj_lookup(o, k) {
        None => Err(ErrorKind::MissingRequiredField),
        Some(JsonV::Str(t)) => match hex_parse(t, n) {
            Some(b) => Ok(b),
            None => Err(ErrorKind::InvalidAddress),
        },
        Some(_) => Err(ErrorKind::MalformedEnvelope),
    }
}

/// A required chain field: an object `{"name": ...}` naming the chain.
pub open spec fn dec_chain_v(o: Seq<(Seq<char>, JsonV)>, k: Seq<char>) -> Result<
    Chain,
    ErrorKind,
> {
    match obj_lookup(o, k) {
        None => Err(ErrorKind::MissingRequiredField),
        Some(JsonV::Obj(io)) => match obj_lookup(io, "name"@) {
            None => Err(ErrorKind::MissingRequiredField),
            Some(JsonV::Str(t)) => match chain_of_name(t) {
                Some(c) => Ok(c),
                None => Err(ErrorKind::UnknownChain),
            },
            Some(_) => Err(ErrorKind::MalformedEnvelope),
        },
        Some(_) => Err(ErrorKind::MalformedEnvelope),
    }
}

/// A required collection field: an object `{"slug": ...}` naming the
/// collection.
pub open spec fn dec_collection_v(o: Seq<(Seq<char>, JsonV)>, k: Seq<char>) -> Result<
    Seq<char>,
    ErrorKind,
> {
    match obj_lookup(o, k) {
        None => Err(ErrorKind::MissingRequiredField),
        Some(JsonV::Obj(io)) => match obj_lookup(io, "slug"@) {
            None => Err(ErrorKind::MissingRequiredField),
            Some(JsonV::Str(t)) => Ok(t),
            Some(_) => Err(ErrorKind::MalformedEnvelope),
        },
        Some(_) => Err(ErrorKind::MalformedEnvelope),
    }
}

/// An optional traits field: an array of opaque values, empty when absent.
pub open spec fn dec_traits_v(o: Seq<(Seq<char>, JsonV)>, k: Seq<char>) -> Result<
    Seq<JsonV>,
    ErrorKind,
> {
    match obj_lookup(o, k) {
        None => Ok(Seq::empty()),
        Some(JsonV::Arr(items)) => Ok(items),
        Some(_) => Err(ErrorKind::MalformedEnvelope),
    }
}

// ---------------------------------------------------------------------------
// Composite decoders
// ---------------------------------------------------------------------------
/// A composite identifier string: chain name, hexadecimal address and
/// decimal token id, split on the first two `/` separators. The token-id
/// segment is the remainder and is not split again.
pub open spec fn dec_nft_id_text(t: Seq<char>) -> Result<NftIdV, ErrorKind> {
    match find_char(t, '/', 0) {
        None => Err(ErrorKind::InvalidIdentifier),
        Some(i) => match find_char(t, '/', i + 1) {
            None => Err(ErrorKind::InvalidIdentifier),
            Some(j) => match chain_of_name(t.take(i)) {
                None => Err(ErrorKind::UnknownChain),
                Some(c) => match hex_parse(t.subrange(i + 1, j), 20) {
                    None => Err(ErrorKind::InvalidAddress),
                    Some(b) => match u256_parse(t.skip(j + 1)) {
                        None => Err(ErrorKind::NumericOverflowOrFormat),
                        Some(d) => Ok(NftIdV { network: c, address: b, id: d }),
                    },
                },
            },
        },
    }
}

/// A required composite-identifier field.
pub open spec fn dec_nft_id_v(o: Seq<(Seq<char>, JsonV)>, k: Seq<char>) -> Result<
    NftIdV,
    ErrorKind,
> {
    match obj_lookup(o, k) {
        None => Err(ErrorKind::MissingRequiredField),
        Some(JsonV::Str(t)) => dec_nft_id_text(t),
        Some(_) => Err(ErrorKind::MalformedEnvelope),
    }
}

/// The metadata record: five fields, each tolerant of absence and null.
pub open spec fn dec_metadata_obj(mo: Seq<(Seq<char>, JsonV)>) -> Result<MetadataV, ErrorKind> {
    match dec_opt_str_v(mo, "name"@) {
        Err(e) => Err(e),
        Ok(name) => match dec_opt_str_v(mo, "description"@) {
            Err(e) => Err(e),
            Ok(description) => match dec_opt_url_v(mo, "image_url"@) {
                Err(e) => Err(e),
                Ok(image_url) => match dec_opt_url_v(mo, "animation_url"@) {
                    Err(e) => Err(e),
                    Ok(animation_url) => match dec_opt_url_v(mo, "metadata_url"@) {
                        Err(e) => Err(e),
                        Ok(metadata_url) => Ok(
                            MetadataV { name, description, image_url, animation_url, metadata_url },
                        ),
                    },
                },
            },
        },
    }
}

/// A required metadata field.
pub open spec fn dec_metadata_v(o: Seq<(Seq<char>, JsonV)>, k: Seq<char>) -> Result<
    MetadataV,
    ErrorKind,
> {
    match obj_lookup(o, k) {
        None => Err(ErrorKind::MissingRequiredField),
        Some(JsonV::Obj(mo)) => dec_metadata_obj(mo),
        Some(_) => Err(ErrorKind::MalformedEnvelope),
    }
}

/// The item record.
pub open spec fn dec_item_obj(io: Seq<(Seq<char>, JsonV)>) -> Result<ItemV, ErrorKind> {
    match dec_nft_id_v(io, "nft_id"@) {
        Err(e) => Err(e),
        Ok(nft_id) => match dec_url_v(io, "permalink"@) {
            Err(e) => Err(e),
            Ok(permalink) => match dec_chain_v(io, "chain"@) {
                Err(e) => Err(e),
                Ok(chain) => match dec_metadata_v(io, "metadata"@) {
                    Err(e) => Err(e),
                    Ok(metadata) => Ok(ItemV { nft_id, permalink, chain, metadata }),
                },
            },
        },
    }
}

/// A required item field.
pub open spec fn dec_item_v(o: Seq<(Seq<char>, JsonV)>, k: Seq<char>) -> Result<
    ItemV,
    ErrorKind,
> {
    match obj_lookup(o, k) {
        None => Err(ErrorKind::MissingRequiredField),
        Some(JsonV::Obj(io)) => dec_item_obj(io),
        Some(_) => Err(ErrorKind::MalformedEnvelope),
    }
}

/// The context shared by every payload kind, read from the payload object
/// itself: its fields are flattened, not nested under a key.
pub open spec fn dec_context_v(o: Seq<(Seq<char>, JsonV)>) -> Result<ContextV, ErrorKind> {
    match dec_collection_v(o, "collection"@) {
        Err(e) => Err(e),
        Ok(collection) => match dec_item_v(o, "item"@) {
            Err(e) => Err(e),
            Ok(item) => Ok(ContextV { collection, item }),
        },
    }
}

/// The payment-token record.
pub open spec fn dec_payment_token_obj(po: Seq<(Seq<char>, JsonV)>) -> Result<
    PaymentTokenV,
    ErrorKind,
> {
    match dec_hex_v(po, "address"@, 20) {
        Err(e) => Err(e),
        Ok(address) => match dec_u64_v(po, "decimals"@) {
            Err(e) => Err(e),
            Ok(decimals) => match dec_price_v(po, "eth_price"@) {
                Err(e) => Err(e),
                Ok(eth_price) => match dec_str_v(po, "name"@) {
                    Err(e) => Err(e),
                    Ok(name) => match dec_str_v(po, "symbol"@) {
                        Err(e) => Err(e),
                        Ok(symbol) => match dec_price_v(po, "usd_price"@) {
                            Err(e) => Err(e),
                            Ok(usd_price) => Ok(
                                PaymentTokenV {
                                    address,
                                    decimals,
                                    eth_price,
                                    name,
                                    symbol,
                                    usd_price,
                                },
                            ),
                        },
                    },
                },
            },
        },
    }
}

/// A required payment-token field.
pub open spec fn dec_payment_token_v(o: Seq<(Seq<char>, JsonV)>, k: Seq<char>) -> Result<
    PaymentTokenV,
    ErrorKind,
> {
    match obj_lookup(o, k) {
        None => Err(ErrorKind::MissingRequiredField),
        Some(JsonV::Obj(po)) => dec_payment_token_obj(po),
        Some(_) => Err(ErrorKind::MalformedEnvelope),
    }
}

/// The transaction record.
pub open spec fn dec_transaction_obj(to: Seq<(Seq<char>, JsonV)>) -> Result<
    TransactionV,
    ErrorKind,
> {
    match dec_hex_v(to, "hash"@, 32) {
        Err(e) => Err(e),
        Ok(hash) => match dec_timestamp_v(to, "timestamp"@) {
            Err(e) => Err(e),
            Ok(timestamp) => Ok(TransactionV { hash, timestamp }),
        },
    }
}

/// A required transaction field.
pub open spec fn dec_transaction_v(o: Seq<(Seq<char>, JsonV)>, k: Seq<char>) -> Result<
    TransactionV,
    ErrorKind,
> {
    match obj_lookup(o, k) {
        None => Err(ErrorKind::MissingRequiredField),
        Some(JsonV::Obj(to)) => dec_transaction_obj(to),
        Some(_) => Err(ErrorKind::MalformedEnvelope),
    }
}

// ---------------------------------------------------------------------------
// Per-kind decoders
// ---------------------------------------------------------------------------
pub open spec fn dec_listed_v(o: Seq<(Seq<char>, JsonV)>) -> Result<ItemListedDataV, ErrorKind> {
    match dec_context_v(o) {
        Err(e) => Err(e),
        Ok(context) => match dec_timestamp_v(o, "event_timestamp"@) {
            Err(e) => Err(e),
            Ok(event_timestamp) => match dec_u256_v(o, "base_price"@) {
                Err(e) => Err(e),
                Ok(base_price) => match dec_timestamp_v(o, "expiration_date"@) {
                    Err(e) => Err(e),
                    Ok(expiration_date) => match dec_bool_v(o, "is_private"@) {
                        Err(e) => Err(e),
                        Ok(is_private) => match dec_timestamp_v(o, "listing_date"@) {
                            Err(e) => Err(e),
                            Ok(listing_date) => match dec_listing_opt_v(o, "listing_type"@) {
                                Err(e) => Err(e),
                                Ok(listing_type) => match dec_addr_v(o, "maker"@) {
                                    Err(e) => Err(e),
                                    Ok(maker) => match dec_payment_token_v(o, "payment_token"@) {
                                        Err(e) => Err(e),
                                        Ok(payment_token) => match dec_u64_v(o, "quantity"@) {
                                            Err(e) => Err(e),
                                            Ok(quantity) => match dec_addr_opt_v(o, "taker"@) {
                                                Err(e) => Err(e),
                                                Ok(taker) => Ok(
                                                    ItemListedDataV {
                                                        context,
                                                        event_timestamp,
                                                        base_price,
                                                        expiration_date,
                                                        is_private,
                                                        listing_date,
                                                        listing_type,
                                                        maker,
                                                        payment_token,
                                                        quantity,
                                                        taker,
                                                    },
                                                ),
                                            },
                                        },
                                    },
                                },
                            },
                        },
                    },
                },
            },
        },
    }
}

pub open spec fn dec_sold_v(o: Seq<(Seq<char>, JsonV)>) -> Result<ItemSoldDataV, ErrorKind> {
    match dec_context_v(o) {
        Err(e) => Err(e),
        Ok(context) => match dec_timestamp_v(o, "event_timestamp"@) {
            Err(e) => Err(e),
            Ok(event_timestamp) => match dec_timestamp_v(o, "closing_date"@) {
                Err(e) => Err(e),
                Ok(closing_date) => match dec_bool_v(o, "is_private"@) {
                    Err(e) => Err(e),
                    Ok(is_private) => match dec_listing_opt_v(o, "listing_type"@) {
                        Err(e) => Err(e),
                        Ok(listing_type) => match dec_addr_v(o, "maker"@) {
                            Err(e) => Err(e),
                            Ok(maker) => match dec_payment_token_v(o, "payment_token"@) {
                                Err(e) => Err(e),
                                Ok(payment_token) => match dec_u64_v(o, "quantity"@) {
                                    Err(e) => Err(e),
                                    Ok(quantity) => match dec_u256_v(o, "sale_price"@) {
                                        Err(e) => Err(e),
                                        Ok(sale_price) => match dec_addr_v(o, "taker"@) {
                                            Err(e) => Err(e),
                                            Ok(taker) => match dec_transaction_v(
                                                o,
                                                "transaction"@,
                                            ) {
                                                Err(e) => Err(e),
                                                Ok(transaction) => Ok(
                                                    ItemSoldDataV {
                                                        context,
                                                        event_timestamp,
                                                        closing_date,
                                                        is_private,
                                                        listing_type,
                                                        maker,
                                                        payment_token,
                                                        quantity,
                                                        sale_price,
                                                        taker,
                                                        transaction,
                                                    },
                                                ),
                                            },
                                        },
                                    },
                                },
                            },
                        },
                    },
                },
            },
        },
    }
}

pub open spec fn dec_transferred_v(o: Seq<(Seq<char>, JsonV)>) -> Result<
    ItemTransferredDataV,
    ErrorKind,
> {
    match dec_context_v(o) {
        Err(e) => Err(e),
        Ok(context) => match dec_timestamp_v(o, "event_timestamp"@) {
            Err(e) => Err(e),
            Ok(event_timestamp) => match dec_transaction_v(o, "transaction"@) {
                Err(e) => Err(e),
                Ok(transaction) => match dec_addr_v(o, "from_account"@) {
                    Err(e) => Err(e),
                    Ok(from_account) => match dec_addr_v(o, "to_account"@) {
                        Err(e) => Err(e),
                        Ok(to_account) => match dec_u64_v(o, "quantity"@) {
                            Err(e) => Err(e),
                            Ok(quantity) => Ok(
                                ItemTransferredDataV {
                                    context,
                                    event_timestamp,
                                    transaction,
                                    from_account,
                                    to_account,
                                    quantity,
                                },
                            ),
                        },
                    },
                },
            },
        },
    }
}

pub open spec fn dec_metadata_updated_v(o: Seq<(Seq<char>, JsonV)>) -> Result<
    ItemMetadataUpdatedDataV,
    ErrorKind,
> {
    match dec_context_v(o) {
        Err(e) => Err(e),
        Ok(context) => match dec_opt_str_v(o, "name"@) {
            Err(e) => Err(e),
            Ok(name) => match dec_opt_str_v(o, "description"@) {
                Err(e) => Err(e),
                Ok(description) => match dec_opt_url_v(o, "image_preview_url"@) {
                    Err(e) => Err(e),
                    Ok(image_preview_url) => match dec_opt_url_v(o, "animation_url"@) {
                        Err(e) => Err(e),
                        Ok(animation_url) => match dec_opt_str_v(o, "background_color"@) {
                            Err(e) => Err(e),
                            Ok(background_color) => match dec_opt_url_v(o, "metadata_url"@) {
                                Err(e) => Err(e),
                                Ok(metadata_url) => match dec_traits_v(o, "traits"@) {
                                    Err(e) => Err(e),
                                    Ok(traits) => Ok(
                                        ItemMetadataUpdatedDataV {
                                            context,
                                            name,
                                            description,
                                            image_preview_url,
                                            animation_url,
                                            background_color,
                                            metadata_url,
                                            traits,
                                        },
                                    ),
                                },
                            },
                        },
                    },
                },
            },
        },
    }
}

pub open spec fn dec_cancelled_v(o: Seq<(Seq<char>, JsonV)>) -> Result<
    ItemCancelledDataV,
    ErrorKind,
> {
    match dec_context_v(o) {
        Err(e) => Err(e),
        Ok(context) => match dec_timestamp_v(o, "event_timestamp"@) {
            Err(e) => Err(e),
            Ok(event_timestamp) => match dec_listing_opt_v(o, "listing_type"@) {
                Err(e) => Err(e),
                Ok(listing_type) => match dec_payment_token_v(o, "payment_token"@) {
                    Err(e) => Err(e),
                    Ok(payment_token) => match dec_u64_v(o, "quantity"@) {
                        Err(e) => Err(e),
                        Ok(quantity) => match dec_transaction_v(o, "transaction"@) {
                            Err(e) => Err(e),
                            Ok(transaction) => Ok(
                                ItemCancelledDataV {
                                    context,
                                    event_timestamp,
                                    listing_type,
                                    payment_token,
                                    quantity,
                                    transaction,
                                },
                            ),
                        },
                    },
                },
            },
        },
    }
}

pub open spec fn dec_offer_v(o: Seq<(Seq<char>, JsonV)>) -> Result<
    ItemReceivedOfferDataV,
    ErrorKind,
> {
    match dec_context_v(o) {
        Err(e) => Err(e),
        Ok(context) => match dec_timestamp_v(o, "event_timestamp"@) {
            Err(e) => Err(e),
            Ok(event_timestamp) => match dec_u256_v(o, "base_price"@) {
                Err(e) => Err(e),
                Ok(base_price) => match dec_timestamp_v(o, "created_date"@) {
                    Err(e) => Err(e),
                    Ok(created_date) => match dec_timestamp_v(o, "expiration_date"@) {
                        Err(e) => Err(e),
                        Ok(expiration_date) => match dec_addr_v(o, "maker"@) {
                            Err(e) => Err(e),
                            Ok(maker) => match dec_payment_token_v(o, "payment_token"@) {
                                Err(e) => Err(e),
                                Ok(payment_token) => match dec_u64_v(o, "quantity"@) {
                                    Err(e) => Err(e),
                                    Ok(quantity) => match dec_addr_opt_v(o, "taker"@) {
                                        Err(e) => Err(e),
                                        Ok(taker) => Ok(
                                            ItemReceivedOfferDataV {
                                                context,
                                                event_timestamp,
                                                base_price,
                                                created_date,
                                                expiration_date,
                                                maker,
                                                payment_token,
                                                quantity,
                                                taker,
                                            },
                                        ),
                                    },
                                },
                            },
                        },
                    },
                },
            },
        },
    }
}

pub open spec fn dec_bid_v(o: Seq<(Seq<char>, JsonV)>) -> Result<
    ItemReceivedBidDataV,
    ErrorKind,
> {
    match dec_context_v(o) {
        Err(e) => Err(e),
        Ok(context) => match dec_timestamp_v(o, "event_timestamp"@) {
            Err(e) => Err(e),
            Ok(event_timestamp) => match dec_u256_v(o, "base_price"@) {
                Err(e) => Err(e),
                Ok(base_price) => match dec_timestamp_v(o, "created_date"@) {
                    Err(e) => Err(e),
                    Ok(created_date) => match dec_timestamp_v(o, "expiration_date"@) {
                        Err(e) => Err(e),
                        Ok(expiration_date) => match dec_addr_v(o, "maker"@) {
                            Err(e) => Err(e),
                            Ok(maker) => match dec_payment_token_v(o, "payment_token"@) {
                                Err(e) => Err(e),
                                Ok(payment_token) => match dec_u64_v(o, "quantity"@) {
                                    Err(e) => Err(e),
                                    Ok(quantity) => match dec_addr_opt_v(o, "taker"@) {
                                        Err(e) => Err(e),
                                        Ok(taker) => Ok(
                                            ItemReceivedBidDataV {
                                                context,
                                                event_timestamp,
                                                base_price,
                                                created_date,
                                                expiration_date,
                                                maker,
                                                payment_token,
                                                quantity,
                                                taker,
                                            },
                                        ),
                                    },
                                },
                            },
                        },
                    },
                },
            },
        },
    }
}

// ---------------------------------------------------------------------------
// Dispatcher and envelope
// ---------------------------------------------------------------------------
/// The payload a discriminant tag selects, decoded from the payload object.
/// An unknown tag fails: the set of event kinds is closed.
pub open spec fn dec_payload_v(tag: Seq<char>, o: Seq<(Seq<char>, JsonV)>) -> Result<
    PayloadV,
    ErrorKind,
> {
    if tag == "item_listed"@ {
        match dec_listed_v(o) {
            Ok(d) => Ok(PayloadV::ItemListed(d)),
            Err(e) => Err(e),
        }
    } else if tag == "item_sold"@ {
        match dec_sold_v(o) {
            Ok(d) => Ok(PayloadV::ItemSold(d)),
            Err(e) => Err(e),
        }
    } else if tag == "item_transferred"@ {
        match dec_transferred_v(o) {
            Ok(d) => Ok(PayloadV::ItemTransferred(d)),
            Err(e) => Err(e),
        }
    } else if tag == "item_metadata_updated"@ {
        match dec_metadata_updated_v(o) {
            Ok(d) => Ok(PayloadV::ItemMetadataUpdated(d)),
            Err(e) => Err(e),
        }
    } else if tag == "item_cancelled"@ {
        match dec_cancelled_v(o) {
            Ok(d) => Ok(PayloadV::ItemCancelled(d)),
            Err(e) => Err(e),
        }
    } else if tag == "item_received_offer"@ {
        match dec_offer_v(o) {
            Ok(d) => Ok(PayloadV::ItemReceivedOffer(d)),
            Err(e) => Err(e),
        }
    } else if tag == "item_received_bid"@ {
        match dec_bid_v(o) {
            Ok(d) => Ok(PayloadV::ItemReceivedBid(d)),
            Err(e) => Err(e),
        }
    } else {
        Err(ErrorKind::MalformedEnvelope)
    }
}

/// What decoding a whole document yields: the envelope's timestamp, then
/// the payload selected by the `event_type` tag. Extra keys are ignored.
/// A document that is not an object, or whose envelope fields are missing
/// or ill-shaped, is a malformed envelope.
pub open spec fn dec_stream_event_v(j: JsonV) -> Result<StreamEventV, ErrorKind> {
    match j {
        JsonV::Obj(o) => match dec_timestamp_v(o, "sent_at"@) {
            Err(_) => Err(ErrorKind::MalformedEnvelope),
            Ok(sent_at) => match dec_str_v(o, "event_type"@) {
                Err(_) => Err(ErrorKind::MalformedEnvelope),
                Ok(tag) => match obj_lookup(o, "payload"@) {
                    None => Err(ErrorKind::MalformedEnvelope),
                    Some(JsonV::Obj(po)) => match dec_payload_v(tag, po) {
                        Ok(payload) => Ok(StreamEventV { sent_at, payload }),
                        Err(e) => Err(e),
                    },
                    Some(_) => Err(ErrorKind::MalformedEnvelope),
                },
            },
        },
        _ => Err(ErrorKind::MalformedEnvelope),
    }
}

// ---------------------------------------------------------------------------
// Encoders
// ---------------------------------------------------------------------------
/// An optional string, with null for none.
pub open spec fn enc_opt_str(o: Option<Seq<char>>) -> JsonV {
    match o {
        Some(s) => JsonV::Str(s),
        None => JsonV::Null,
    }
}

/// A wrapped address object.
pub open spec fn enc_addr(b: Seq<u8>) -> JsonV {
    JsonV::Obj(seq![("address"@, JsonV::Str(hex_0x_text(b)))])
}

/// An optional wrapped address, with null for none.
pub open spec fn enc_addr_opt(o: Option<Seq<u8>>) -> JsonV {
    match o {
        Some(b) => enc_addr(b),
        None => JsonV::Null,
    }
}

/// An optional listing type, with null for a buyout.
pub open spec fn enc_listing_opt(o: Option<ListingType>) -> JsonV {
    match o {
        Some(l) => JsonV::Str(listing_type_name(l)),
        None => JsonV::Null,
    }
}

/// A chain object.
pub open spec fn enc_chain(c: Chain) -> JsonV {
    JsonV::Obj(seq![("name"@, JsonV::Str(chain_name(c)))])
}

/// A collection object.
pub open spec fn enc_collection(slug: Seq<char>) -> JsonV {
    JsonV::Obj(seq![("slug"@, JsonV::Str(slug))])
}

/// The composite identifier string of an item.
pub open spec fn nft_id_text(n: NftIdV) -> Seq<char> {
    chain_name(n.network) + seq!['/'] + hex_0x_text(n.address) + seq!['/'] + n.id
}

/// The metadata object.
pub open spec fn enc_metadata(m: MetadataV) -> JsonV {
    JsonV::Obj(
        seq![
            ("name"@, enc_opt_str(m.name)),
            ("description"@, enc_opt_str(m.description)),
            ("image_url"@, enc_opt_str(m.image_url)),
            ("animation_url"@, enc_opt_str(m.animation_url)),
            ("metadata_url"@, enc_opt_str(m.metadata_url)),
        ],
    )
}

/// The item object.
pub open spec fn enc_item(i: ItemV) -> JsonV {
    JsonV::Obj(
        seq![
            ("nft_id"@, JsonV::Str(nft_id_text(i.nft_id))),
            ("permalink"@, JsonV::Str(i.permalink)),
            ("chain"@, enc_chain(i.chain)),
            ("metadata"@, enc_metadata(i.metadata)),
        ],
    )
}

/// The flattened context entries that open every payload object.
pub open spec fn enc_context_entries(c: ContextV) -> Seq<(Seq<char>, JsonV)> {
    seq![("collection"@, enc_collection(c.collection)), ("item"@, enc_item(c.item))]
}

/// The payment-token object.
pub open spec fn enc_payment_token(p: PaymentTokenV) -> JsonV {
    JsonV::Obj(
        seq![
            ("address"@, JsonV::Str(hex_0x_text(p.address))),
            ("decimals"@, JsonV::Num(dec_text(p.decimals as int))),
            ("eth_price"@, JsonV::Str(p.eth_price)),
            ("name"@, JsonV::Str(p.name)),
            ("symbol"@, JsonV::Str(p.symbol)),
            ("usd_price"@, JsonV::Str(p.usd_price)),
        ],
    )
}

/// The transaction object.
pub open spec fn enc_transaction(t: TransactionV) -> JsonV {
    JsonV::Obj(
        seq![
            ("hash"@, JsonV::Str(hex_0x_text(t.hash))),
            ("timestamp"@, JsonV::Str(t.timestamp.text)),
        ],
    )
}

pub open spec fn enc_listed_entries(d: ItemListedDataV) -> Seq<(Seq<char>, JsonV)> {
    enc_context_entries(d.context) + seq![
        ("event_timestamp"@, JsonV::Str(d.event_timestamp.text)),
        ("base_price"@, JsonV::Str(d.base_price)),
        ("expiration_date"@, JsonV::Str(d.expiration_date.text)),
        ("is_private"@, JsonV::Bool(d.is_private)),
        ("listing_date"@, JsonV::Str(d.listing_date.text)),
        ("listing_type"@, enc_listing_opt(d.listing_type)),
        ("maker"@, enc_addr(d.maker)),
        ("payment_token"@, enc_payment_token(d.payment_token)),
        ("quantity"@, JsonV::Num(dec_text(d.quantity as int))),
        ("taker"@, enc_addr_opt(d.taker)),
    ]
}

pub open spec fn enc_sold_entries(d: ItemSoldDataV) -> Seq<(Seq<char>, JsonV)> {
    enc_context_entries(d.context) + seq![
        ("event_timestamp"@, JsonV::Str(d.event_timestamp.text)),
        ("closing_date"@, JsonV::Str(d.closing_date.text)),
        ("is_private"@, JsonV::Bool(d.is_private)),
        ("listing_type"@, enc_listing_opt(d.listing_type)),
        ("maker"@, enc_addr(d.maker)),
        ("payment_token"@, enc_payment_token(d.payment_token)),
        ("quantity"@, JsonV::Num(dec_text(d.quantity as int))),
        ("sale_price"@, JsonV::Str(d.sale_price)),
        ("taker"@, enc_addr(d.taker)),
        ("transaction"@, enc_transaction(d.transaction)),
    ]
}

pub open spec fn enc_transferred_entries(d: ItemTransferredDataV) -> Seq<(Seq<char>, JsonV)> {
    enc_context_entries(d.context) + seq![
        ("event_timestamp"@, JsonV::Str(d.event_timestamp.text)),
        ("transaction"@, enc_transaction(d.transaction)),
        ("from_account"@, enc_addr(d.from_account)),
        ("to_account"@, enc_addr(d.to_account)),
        ("quantity"@, JsonV::Num(dec_text(d.quantity as int))),
    ]
}

pub open spec fn enc_metadata_updated_entries(d: ItemMetadataUpdatedDataV) -> Seq<
    (Seq<char>, JsonV),
> {
    enc_context_entries(d.context) + seq![
        ("name"@, enc_opt_str(d.name)),
        ("description"@, enc_opt_str(d.description)),
        ("image_preview_url"@, enc_opt_str(d.image_preview_url)),
        ("animation_url"@, enc_opt_str(d.animation_url)),
        ("background_color"@, enc_opt_str(d.background_color)),
        ("metadata_url"@, enc_opt_str(d.metadata_url)),
        ("traits"@, JsonV::Arr(d.traits)),
    ]
}

pub open spec fn enc_cancelled_entries(d: ItemCancelledDataV) -> Seq<(Seq<char>, JsonV)> {
    enc_context_entries(d.context) + seq![
        ("event_timestamp"@, JsonV::Str(d.event_timestamp.text)),
        ("listing_type"@, enc_listing_opt(d.listing_type)),
        ("payment_token"@, enc_payment_token(d.payment_token)),
        ("quantity"@, JsonV::Num(dec_text(d.quantity as int))),
        ("transaction"@, enc_transaction(d.transaction)),
    ]
}

pub open spec fn enc_offer_entries(d: ItemReceivedOfferDataV) -> Seq<(Seq<char>, JsonV)> {
    enc_context_entries(d.context) + seq![
        ("event_timestamp"@, JsonV::Str(d.event_timestamp.text)),
        ("base_price"@, JsonV::Str(d.base_price)),
        ("created_date"@, JsonV::Str(d.created_date.text)),
        ("expiration_date"@, JsonV::Str(d.expiration_date.text)),
        ("maker"@, enc_addr(d.maker)),
        ("payment_token"@, enc_payment_token(d.payment_token)),
        ("quantity"@, JsonV::Num(dec_text(d.quantity as int))),
        ("taker"@, enc_addr_opt(d.taker)),
    ]
}

pub open spec fn enc_bid_entries(d: ItemReceivedBidDataV) -> Seq<(Seq<char>, JsonV)> {
    enc_context_entries(d.context) + seq![
        ("event_timestamp"@, JsonV::Str(d.event_timestamp.text)),
        ("base_price"@, JsonV::Str(d.base_price)),
        ("created_date"@, JsonV::Str(d.created_date.text)),
        ("expiration_date"@, JsonV::Str(d.expiration_date.text)),
        ("maker"@, enc_addr(d.maker)),
        ("payment_token"@, enc_payment_token(d.payment_token)),
        ("quantity"@, JsonV::Num(dec_text(d.quantity as int))),
        ("taker"@, enc_addr_opt(d.taker)),
    ]
}

/// The discriminant tag each payload kind carries in `event_type`.
pub open spec fn payload_tag(p: PayloadV) -> Seq<char> {
    match p {
        PayloadV::ItemListed(_) => "item_listed"@,
        PayloadV::ItemSold(_) => "item_sold"@,
        PayloadV::ItemTransferred(_) => "item_transferred"@,
        PayloadV::ItemMetadataUpdated(_) => "item_metadata_updated"@,
        PayloadV::ItemCancelled(_) => "item_cancelled"@,
        PayloadV::ItemReceivedOffer(_) => "item_received_offer"@,
        PayloadV::ItemReceivedBid(_) => "item_received_bid"@,
    }
}

/// The entries of the payload object for each kind.
pub open spec fn enc_payload_entries(p: PayloadV) -> Seq<(Seq<char>, JsonV)> {
    match p {
        PayloadV::ItemListed(d) => enc_listed_entries(d),
        PayloadV::ItemSold(d) => enc_sold_entries(d),
        PayloadV::ItemTransferred(d) => enc_transferred_entries(d),
        PayloadV::ItemMetadataUpdated(d) => enc_metadata_updated_entries(d),
        PayloadV::ItemCancelled(d) => enc_cancelled_entries(d),
        PayloadV::ItemReceivedOffer(d) => enc_offer_entries(d),
        PayloadV::ItemReceivedBid(d) => enc_bid_entries(d),
    }
}

/// What encoding a typed event produces: the canonical wire document.
pub open spec fn enc_stream_event_v(e: StreamEventV) -> JsonV {
    JsonV::Obj(
        seq![
            ("sent_at"@, JsonV::Str(e.sent_at.text)),
            ("event_type"@, JsonV::Str(payload_tag(e.payload))),
            ("payload"@, JsonV::Obj(enc_payload_entries(e.payload))),
        ],
    )
}

} // verus!
