//! The typed event model: the discriminated payload union, the shared
//! context record, and the leaf records they embed, each with its ghost
//! mirror and well-formedness predicate.

use vstd::prelude::*;

use crate::address::{Address, H256};
use crate::chain::{Chain, ListingType};
use crate::json::{arr_view, Json, JsonV};
use crate::link::{url_ok, UrlText};
use crate::price::Price;
use crate::text::num_syntax;
use crate::time::{timestamp_wf, Timestamp, TimestampV};
use crate::u256::{u256_canonical, U256};

verus! {

/// The view of an optional value.
pub open spec fn view_opt<T: View>(o: Option<T>) -> Option<T::V> {
    match o {
        Some(t) => Some(t@),
        None => None,
    }
}

/// A collection on the marketplace, named by its slug. This is the
/// event-payload form, wire-encoded as `{"slug": ...}`; the
/// subscription-side identifier is a different type.
#[derive(Clone, Debug)]
pub struct Collection {
    slug: String,
}

impl View for Collection {
    type V = Seq<char>;

    closed spec fn view(&self) -> Seq<char> {
        self.slug@
    }
}

impl Collection {
    /// A collection with the given slug.
    pub fn new(slug: String) -> (r: Collection)
        ensures
            r@ == slug@,
    {
        Collection { slug }
    }

    /// The slug of this collection.
    pub fn slug(&self) -> (r: &str)
        ensures
            r@ == self@,
    {
        self.slug.as_str()
    }
}

/// Ghost mirror of [`Metadata`].
pub ghost struct MetadataV {
    pub name: Option<Seq<char>>,
    pub description: Option<Seq<char>>,
    pub image_url: Option<Seq<char>>,
    pub animation_url: Option<Seq<char>>,
    pub metadata_url: Option<Seq<char>>,
}

/// Basic metadata of an item. Every field may be absent or null on the
/// wire; the two are indistinguishable here.
#[derive(Clone, Debug)]
pub struct Metadata {
    /// Name.
    pub name: Option<String>,
    /// Description.
    pub description: Option<String>,
    /// Image URL.
    pub image_url: Option<UrlText>,
    /// Animation URL.
    pub animation_url: Option<UrlText>,
    /// URL to the item's metadata document.
    pub metadata_url: Option<UrlText>,
}

impl View for Metadata {
    type V = MetadataV;

    open spec fn view(&self) -> MetadataV {
        MetadataV {
            name: view_opt(self.name),
            description: view_opt(self.description),
            image_url: view_opt(self.image_url),
            animation_url: view_opt(self.animation_url),
            metadata_url: view_opt(self.metadata_url),
        }
    }
}

/// The URL fields of well-formed metadata hold URLs.
pub open spec fn metadata_wf(m: MetadataV) -> bool {
    &&& (m.image_url is Some ==> url_ok(m.image_url->0))
    &&& (m.animation_url is Some ==> url_ok(m.animation_url->0))
    &&& (m.metadata_url is Some ==> url_ok(m.metadata_url->0))
}

/// Ghost mirror of [`NftId`].
pub ghost struct NftIdV {
    pub network: Chain,
    pub address: Seq<u8>,
    pub id: Seq<char>,
}

/// Composite identifier of an item: chain, contract address and token id,
/// wire-encoded as one `/`-delimited string.
#[derive(Clone, Debug)]
pub struct NftId {
    /// Chain the item is on.
    pub network: Chain,
    /// Contract address.
    pub address: Address,
    /// Token id.
    pub id: U256,
}

impl View for NftId {
    type V = NftIdV;

    open spec fn view(&self) -> NftIdV {
        NftIdV { network: self.network, address: self.address@, id: self.id@ }
    }
}

/// A well-formed identifier holds a 20-byte address and a canonical token
/// id.
pub open spec fn nft_id_wf(n: NftIdV) -> bool {
    n.address.len() == 20 && u256_canonical(n.id)
}

/// Ghost mirror of [`Item`].
pub ghost struct ItemV {
    pub nft_id: NftIdV,
    pub permalink: Seq<char>,
    pub chain: Chain,
    pub metadata: MetadataV,
}

/// Context about an item.
#[derive(Clone, Debug)]
pub struct Item {
    /// Identifier.
    pub nft_id: NftId,
    /// Link to the item's marketplace page.
    pub permalink: UrlText,
    /// Chain the item is on.
    pub chain: Chain,
    /// Basic metadata.
    pub metadata: Metadata,
}

impl View for Item {
    type V = ItemV;

    open spec fn view(&self) -> ItemV {
        ItemV {
            nft_id: self.nft_id@,
            permalink: self.permalink@,
            chain: self.chain,
            metadata: self.metadata@,
        }
    }
}

pub open spec fn item_wf(i: ItemV) -> bool {
    nft_id_wf(i.nft_id) && url_ok(i.permalink) && metadata_wf(i.metadata)
}

/// Ghost mirror of [`Context`].
pub ghost struct ContextV {
    pub collection: Seq<char>,
    pub item: ItemV,
}

/// Context shared by every payload kind: the collection and the item the
/// event concerns. On the wire its fields are flattened into the payload
/// object.
#[derive(Clone, Debug)]
pub struct Context {
    /// Collection that the item belongs to.
    pub collection: Collection,
    /// Information about the item itself.
    pub item: Item,
}

impl View for Context {
    type V = ContextV;

    open spec fn view(&self) -> ContextV {
        ContextV { collection: self.collection@, item: self.item@ }
    }
}

pub open spec fn context_wf(c: ContextV) -> bool {
    item_wf(c.item)
}

/// Ghost mirror of [`PaymentToken`].
pub ghost struct PaymentTokenV {
    pub address: Seq<u8>,
    pub decimals: u64,
    pub eth_price: Seq<char>,
    pub name: Seq<char>,
    pub symbol: Seq<char>,
    pub usd_price: Seq<char>,
}

/// Token used for payment.
#[derive(Clone, Debug)]
pub struct PaymentToken {
    /// Contract address, wire-encoded as a bare hexadecimal string.
    pub address: Address,
    /// Granularity of the token.
    pub decimals: u64,
    /// Price of the token in ETH.
    pub eth_price: Price,
    /// Name.
    pub name: String,
    /// Symbol.
    pub symbol: String,
    /// Price of the token in USD.
    pub usd_price: Price,
}

impl View for PaymentToken {
    type V = PaymentTokenV;

    open spec fn view(&self) -> PaymentTokenV {
        PaymentTokenV {
            address: self.address@,
            decimals: self.decimals,
            eth_price: self.eth_price@,
            name: self.name@,
            symbol: self.symbol@,
            usd_price: self.usd_price@,
        }
    }
}

pub open spec fn payment_token_wf(p: PaymentTokenV) -> bool {
    p.address.len() == 20 && num_syntax(p.eth_price) && num_syntax(p.usd_price)
}

/// Ghost mirror of [`Transaction`].
pub ghost struct TransactionV {
    pub hash: Seq<u8>,
    pub timestamp: TimestampV,
}

/// Details of a transaction.
#[derive(Clone, Debug)]
pub struct Transaction {
    /// Transaction hash.
    pub hash: H256,
    /// Timestamp of the transaction.
    pub timestamp: Timestamp,
}

impl View for Transaction {
    type V = TransactionV;

    open spec fn view(&self) -> TransactionV {
        TransactionV { hash: self.hash@, timestamp: self.timestamp@ }
    }
}

pub open spec fn transaction_wf(t: TransactionV) -> bool {
    t.hash.len() == 32 && timestamp_wf(t.timestamp)
}

/// Ghost mirror of [`ItemListedData`].
pub ghost struct ItemListedDataV {
    pub context: ContextV,
    pub event_timestamp: TimestampV,
    pub base_price: Seq<char>,
    pub expiration_date: TimestampV,
    pub is_private: bool,
    pub listing_date: TimestampV,
    pub listing_type: Option<ListingType>,
    pub maker: Seq<u8>,
    pub payment_token: PaymentTokenV,
    pub quantity: u64,
    pub taker: Option<Seq<u8>>,
}

/// An item has been listed for sale.
#[derive(Clone, Debug)]
pub struct ItemListedData {
    /// Context.
    pub context: Context,
    /// Timestamp of the event.
    pub event_timestamp: Timestamp,
    /// Starting price of the listing, in the payment token's base unit.
    pub base_price: U256,
    /// Expiration date.
    pub expiration_date: Timestamp,
    /// Whether the listing is private.
    pub is_private: bool,
    /// Timestamp of when the listing was created.
    pub listing_date: Timestamp,
    /// Type of listing; its absence means the listing is a buyout.
    pub listing_type: Option<ListingType>,
    /// Creator of the listing.
    pub maker: Address,
    /// Token accepted for payment.
    pub payment_token: PaymentToken,
    /// Number of items on sale.
    pub quantity: u64,
    /// Buyer of the listing, if any.
    pub taker: Option<Address>,
}

impl View for ItemListedData {
    type V = ItemListedDataV;

    open spec fn view(&self) -> ItemListedDataV {
        ItemListedDataV {
            context: self.context@,
            event_timestamp: self.event_timestamp@,
            base_price: self.base_price@,
            expiration_date: self.expiration_date@,
            is_private: self.is_private,
            listing_date: self.listing_date@,
            listing_type: self.listing_type,
            maker: self.maker@,
            payment_token: self.payment_token@,
            quantity: self.quantity,
            taker: view_opt(self.taker),
        }
    }
}

pub open spec fn listed_wf(d: ItemListedDataV) -> bool {
    &&& context_wf(d.context)
    &&& timestamp_wf(d.event_timestamp)
    &&& u256_canonical(d.base_price)
    &&& timestamp_wf(d.expiration_date)
    &&& timestamp_wf(d.listing_date)
    &&& d.maker.len() == 20
    &&& payment_token_wf(d.payment_token)
    &&& (d.taker is Some ==> d.taker->0.len() == 20)
}

/// Ghost mirror of [`ItemSoldData`].
pub ghost struct ItemSoldDataV {
    pub context: ContextV,
    pub event_timestamp: TimestampV,
    pub closing_date: TimestampV,
    pub is_private: bool,
    pub listing_type: Option<ListingType>,
    pub maker: Seq<u8>,
    pub payment_token: PaymentTokenV,
    pub quantity: u64,
    pub sale_price: Seq<char>,
    pub taker: Seq<u8>,
    pub transaction: TransactionV,
}

/// An item has been sold.
#[derive(Clone, Debug)]
pub struct ItemSoldData {
    /// Context.
    pub context: Context,
    /// Timestamp of the event.
    pub event_timestamp: Timestamp,
    /// Timestamp of when the listing was closed.
    pub closing_date: Timestamp,
    /// Whether the listing was private.
    pub is_private: bool,
    /// Type of listing; its absence means the listing was a buyout.
    pub listing_type: Option<ListingType>,
    /// Creator of the listing.
    pub maker: Address,
    /// Token used for payment.
    pub payment_token: PaymentToken,
    /// Number of items bought.
    pub quantity: u64,
    /// Purchase price, in the payment token's base unit.
    pub sale_price: U256,
    /// Buyer of the listing; required for a sale.
    pub taker: Address,
    /// Transaction of the purchase.
    pub transaction: Transaction,
}

impl View for ItemSoldData {
    type V = ItemSoldDataV;

    open spec fn view(&self) -> ItemSoldDataV {
        ItemSoldDataV {
            context: self.context@,
            event_timestamp: self.event_timestamp@,
            closing_date: self.closing_date@,
            is_private: self.is_private,
            listing_type: self.listing_type,
            maker: self.maker@,
            payment_token: self.payment_token@,
            quantity: self.quantity,
            sale_price: self.sale_price@,
            taker: self.taker@,
            transaction: self.transaction@,
        }
    }
}

pub open spec fn sold_wf(d: ItemSoldDataV) -> bool {
    &&& context_wf(d.context)
    &&& timestamp_wf(d.event_timestamp)
    &&& timestamp_wf(d.closing_date)
    &&& d.maker.len() == 20
    &&& payment_token_wf(d.payment_token)
    &&& u256_canonical(d.sale_price)
    &&& d.taker.len() == 20
    &&& transaction_wf(d.transaction)
}

/// Ghost mirror of [`ItemTransferredData`].
pub ghost struct ItemTransferredDataV {
    pub context: ContextV,
    pub event_timestamp: TimestampV,
    pub transaction: TransactionV,
    pub from_account: Seq<u8>,
    pub to_account: Seq<u8>,
    pub quantity: u64,
}

/// An item has been transferred from one wallet to another.
#[derive(Clone, Debug)]
pub struct ItemTransferredData {
    /// Context.
    pub context: Context,
    /// Timestamp of the event.
    pub event_timestamp: Timestamp,
    /// Transaction of the transfer.
    pub transaction: Transaction,
    /// Address the item was transferred from.
    pub from_account: Address,
    /// Address the item was transferred to.
    pub to_account: Address,
    /// Number of items transferred.
    pub quantity: u64,
}

impl View for ItemTransferredData {
    type V = ItemTransferredDataV;

    open spec fn view(&self) -> ItemTransferredDataV {
        ItemTransferredDataV {
            context: self.context@,
            event_timestamp: self.event_timestamp@,
            transaction: self.transaction@,
            from_account: self.from_account@,
            to_account: self.to_account@,
            quantity: self.quantity,
        }
    }
}

pub open spec fn transferred_wf(d: ItemTransferredDataV) -> bool {
    &&& context_wf(d.context)
    &&& timestamp_wf(d.event_timestamp)
    &&& transaction_wf(d.transaction)
    &&& d.from_account.len() == 20
    &&& d.to_account.len() == 20
}

/// Ghost mirror of [`ItemMetadataUpdatedData`].
pub ghost struct ItemMetadataUpdatedDataV {
    pub context: ContextV,
    pub name: Option<Seq<char>>,
    pub description: Option<Seq<char>>,
    pub image_preview_url: Option<Seq<char>>,
    pub animation_url: Option<Seq<char>>,
    pub background_color: Option<Seq<char>>,
    pub metadata_url: Option<Seq<char>>,
    pub traits: Seq<JsonV>,
}

/// An item has had its metadata updated.
#[derive(Debug)]
pub struct ItemMetadataUpdatedData {
    /// Context.
    pub context: Context,
    /// New name.
    pub name: Option<String>,
    /// New description.
    pub description: Option<String>,
    /// New cached preview URL.
    pub image_preview_url: Option<UrlText>,
    /// New animation URL.
    pub animation_url: Option<UrlText>,
    /// New background color.
    pub background_color: Option<String>,
    /// New URL to the metadata document.
    pub metadata_url: Option<UrlText>,
    /// New traits, kept as opaque structured values; empty when absent.
    pub traits: Vec<Json>,
}

impl View for ItemMetadataUpdatedData {
    type V = ItemMetadataUpdatedDataV;

    open spec fn view(&self) -> ItemMetadataUpdatedDataV {
        ItemMetadataUpdatedDataV {
            context: self.context@,
            name: view_opt(self.name),
            description: view_opt(self.description),
            image_preview_url: view_opt(self.image_preview_url),
            animation_url: view_opt(self.animation_url),
            background_color: view_opt(self.background_color),
            metadata_url: view_opt(self.metadata_url),
            traits: arr_view(self.traits@),
        }
    }
}

pub open spec fn metadata_updated_wf(d: ItemMetadataUpdatedDataV) -> bool {
    &&& context_wf(d.context)
    &&& (d.image_preview_url is Some ==> url_ok(d.image_preview_url->0))
    &&& (d.animation_url is Some ==> url_ok(d.animation_url->0))
    &&& (d.metadata_url is Some ==> url_ok(d.metadata_url->0))
}

/// Ghost mirror of [`ItemCancelledData`].
pub ghost struct ItemCancelledDataV {
    pub context: ContextV,
    pub event_timestamp: TimestampV,
    pub listing_type: Option<ListingType>,
    pub payment_token: PaymentTokenV,
    pub quantity: u64,
    pub transaction: TransactionV,
}

/// An item has had its listing cancelled.
#[derive(Clone, Debug)]
pub struct ItemCancelledData {
    /// Context.
    pub context: Context,
    /// Timestamp of the event.
    pub event_timestamp: Timestamp,
    /// Type of listing; its absence means the listing would have been a
    /// buyout.
    pub listing_type: Option<ListingType>,
    /// Token accepted for payment.
    pub payment_token: PaymentToken,
    /// Number of items in the listing.
    pub quantity: u64,
    /// Transaction of the cancellation.
    pub transaction: Transaction,
}

impl View for ItemCancelledData {
    type V = ItemCancelledDataV;

    open spec fn view(&self) -> ItemCancelledDataV {
        ItemCancelledDataV {
            context: self.context@,
            event_timestamp: self.event_timestamp@,
            listing_type: self.listing_type,
            payment_token: self.payment_token@,
            quantity: self.quantity,
            transaction: self.transaction@,
        }
    }
}

pub open spec fn cancelled_wf(d: ItemCancelledDataV) -> bool {
    &&& context_wf(d.context)
    &&& timestamp_wf(d.event_timestamp)
    &&& payment_token_wf(d.payment_token)
    &&& transaction_wf(d.transaction)
}

/// Ghost mirror of [`ItemReceivedOfferData`].
pub ghost struct ItemReceivedOfferDataV {
    pub context: ContextV,
    pub event_timestamp: TimestampV,
    pub base_price: Seq<char>,
    pub created_date: TimestampV,
    pub expiration_date: TimestampV,
    pub maker: Seq<u8>,
    pub payment_token: PaymentTokenV,
    pub quantity: u64,
    pub taker: Option<Seq<u8>>,
}

/// An item has received an offer.
#[derive(Clone, Debug)]
pub struct ItemReceivedOfferData {
    /// Context.
    pub context: Context,
    /// Timestamp of the event.
    pub event_timestamp: Timestamp,
    /// Offer price, in the payment token's base unit.
    pub base_price: U256,
    /// Timestamp of when the offer was created.
    pub created_date: Timestamp,
    /// Timestamp of when the offer will expire.
    pub expiration_date: Timestamp,
    /// Creator of the offer.
    pub maker: Address,
    /// Token offered for payment.
    pub payment_token: PaymentToken,
    /// Number of items on the offer.
    pub quantity: u64,
    /// Taker of the offer, if any.
    pub taker: Option<Address>,
}

impl View for ItemReceivedOfferData {
    type V = ItemReceivedOfferDataV;

    open spec fn view(&self) -> ItemReceivedOfferDataV {
        ItemReceivedOfferDataV {
            context: self.context@,
            event_timestamp: self.event_timestamp@,
            base_price: self.base_price@,
            created_date: self.created_date@,
            expiration_date: self.expiration_date@,
            maker: self.maker@,
            payment_token: self.payment_token@,
            quantity: self.quantity,
            taker: view_opt(self.taker),
        }
    }
}

pub open spec fn offer_wf(d: ItemReceivedOfferDataV) -> bool {
    &&& context_wf(d.context)
    &&& timestamp_wf(d.event_timestamp)
    &&& u256_canonical(d.base_price)
    &&& timestamp_wf(d.created_date)
    &&& timestamp_wf(d.expiration_date)
    &&& d.maker.len() == 20
    &&& payment_token_wf(d.payment_token)
    &&& (d.taker is Some ==> d.taker->0.len() == 20)
}

/// Ghost mirror of [`ItemReceivedBidData`].
pub ghost struct ItemReceivedBidDataV {
    pub context: ContextV,
    pub event_timestamp: TimestampV,
    pub base_price: Seq<char>,
    pub created_date: TimestampV,
    pub expiration_date: TimestampV,
    pub maker: Seq<u8>,
    pub payment_token: PaymentTokenV,
    pub quantity: u64,
    pub taker: Option<Seq<u8>>,
}

/// An item has received a bid.
#[derive(Clone, Debug)]
pub struct ItemReceivedBidData {
    /// Context.
    pub context: Context,
    /// Timestamp of the event.
    pub event_timestamp: Timestamp,
    /// Bid price, in the payment token's base unit.
    pub base_price: U256,
    /// Timestamp of when the bid was created.
    pub created_date: Timestamp,
    /// Timestamp of when the bid will expire.
    pub expiration_date: Timestamp,
    /// Creator of the bid.
    pub maker: Address,
    /// Token offered for payment.
    pub payment_token: PaymentToken,
    /// Number of items on the bid.
    pub quantity: u64,
    /// Taker of the bid, if any.
    pub taker: Option<Address>,
}

impl View for ItemReceivedBidData {
    type V = ItemReceivedBidDataV;

    open spec fn view(&self) -> ItemReceivedBidDataV {
        ItemReceivedBidDataV {
            context: self.context@,
            event_timestamp: self.event_timestamp@,
            base_price: self.base_price@,
            created_date: self.created_date@,
            expiration_date: self.expiration_date@,
            maker: self.maker@,
            payment_token: self.payment_token@,
            quantity: self.quantity,
            taker: view_opt(self.taker),
        }
    }
}

pub open spec fn bid_wf(d: ItemReceivedBidDataV) -> bool {
    &&& context_wf(d.context)
    &&& timestamp_wf(d.event_timestamp)
    &&& u256_canonical(d.base_price)
    &&& timestamp_wf(d.created_date)
    &&& timestamp_wf(d.expiration_date)
    &&& d.maker.len() == 20
    &&& payment_token_wf(d.payment_token)
    &&& (d.taker is Some ==> d.taker->0.len() == 20)
}

/// Ghost mirror of [`Payload`].
pub ghost enum PayloadV {
    ItemListed(ItemListedDataV),
    ItemSold(ItemSoldDataV),
    ItemTransferred(ItemTransferredDataV),
    ItemMetadataUpdated(ItemMetadataUpdatedDataV),
    ItemCancelled(ItemCancelledDataV),
    ItemReceivedOffer(ItemReceivedOfferDataV),
    ItemReceivedBid(ItemReceivedBidDataV),
}

/// Content of a message: the discriminated union of the seven event kinds.
/// The wire carries the discriminant in `event_type` and the record in
/// `payload`; the two must agree, or decoding fails.
#[derive(Debug)]
pub enum Payload {
    /// An item has been listed for sale.
    ItemListed(ItemListedData),
    /// An item has been sold.
    ItemSold(ItemSoldData),
    /// An item has been transferred from one wallet to another.
    ItemTransferred(ItemTransferredData),
    /// An item has had its metadata updated.
    ItemMetadataUpdated(ItemMetadataUpdatedData),
    /// An item has had its listing cancelled.
    ItemCancelled(ItemCancelledData),
    /// An item has received an offer.
    ItemReceivedOffer(ItemReceivedOfferData),
    /// An item has received a bid.
    ItemReceivedBid(ItemReceivedBidData),
}

impl View for Payload {
    type V = PayloadV;

    open spec fn view(&self) -> PayloadV {
        match self {
            Payload::ItemListed(d) => PayloadV::ItemListed(d@),
            Payload::ItemSold(d) => PayloadV::ItemSold(d@),
            Payload::ItemTransferred(d) => PayloadV::ItemTransferred(d@),
            Payload::ItemMetadataUpdated(d) => PayloadV::ItemMetadataUpdated(d@),
            Payload::ItemCancelled(d) => PayloadV::ItemCancelled(d@),
            Payload::ItemReceivedOffer(d) => PayloadV::ItemReceivedOffer(d@),
            Payload::ItemReceivedBid(d) => PayloadV::ItemReceivedBid(d@),
        }
    }
}

pub open spec fn payload_wf(p: PayloadV) -> bool {
    match p {
        PayloadV::ItemListed(d) => listed_wf(d),
        PayloadV::ItemSold(d) => sold_wf(d),
        PayloadV::ItemTransferred(d) => transferred_wf(d),
        PayloadV::ItemMetadataUpdated(d) => metadata_updated_wf(d),
        PayloadV::ItemCancelled(d) => cancelled_wf(d),
        PayloadV::ItemReceivedOffer(d) => offer_wf(d),
        PayloadV::ItemReceivedBid(d) => bid_wf(d),
    }
}

/// Ghost mirror of [`StreamEvent`].
pub ghost struct StreamEventV {
    pub sent_at: TimestampV,
    pub payload: PayloadV,
}

/// A message received from the stream: when it was sent, and its payload.
#[derive(Debug)]
pub struct StreamEvent {
    /// Timestamp of when this message was sent to the client.
    pub sent_at: Timestamp,
    /// Contents of the message.
    pub payload: Payload,
}

impl View for StreamEvent {
    type V = StreamEventV;

    open spec fn view(&self) -> StreamEventV {
        StreamEventV { sent_at: self.sent_at@, payload: self.payload@ }
    }
}

pub open spec fn stream_event_wf(e: StreamEventV) -> bool {
    timestamp_wf(e.sent_at) && payload_wf(e.payload)
}

} // verus!
