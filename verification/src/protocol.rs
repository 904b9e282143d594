//! The subscription side of the stream: which collection to subscribe to,
//! which socket to reach, and the event names of the channel protocol.
//!
//! A subscription-time collection identifier wire-encodes as
//! `"collection:<slug>"` (or `"collection:*"` for every collection). It is
//! a different representation from the `{"slug": ...}` object inside event
//! payloads, and the two are kept as distinct types on purpose.

use vstd::prelude::*;

use crate::json::str_eq;
use crate::schema::{Payload, PayloadV};

verus! {

/// Ghost mirror of [`Collection`].
pub ghost enum CollectionV {
    Collection(Seq<char>),
    All,
}

/// A collection whose events can be subscribed to.
#[derive(Clone, Debug, PartialEq, Eq, Hash)]
pub enum Collection {
    /// The collection with the given slug.
    Collection(String),
    /// Every collection.
    All,
}

impl View for Collection {
    type V = CollectionV;

    open spec fn view(&self) -> CollectionV {
        match self {
            Collection::Collection(s) => CollectionV::Collection(s@),
            Collection::All => CollectionV::All,
        }
    }
}

/// The channel-topic prefix of every collection identifier.
pub open spec fn channel_prefix() -> Seq<char> {
    "collection:"@
}

/// The channel-topic text of a collection identifier.
pub open spec fn channel_text(c: CollectionV) -> Seq<char> {
    match c {
        CollectionV::Collection(s) => channel_prefix() + s,
        CollectionV::All => channel_prefix() + seq!['*'],
    }
}

/// The collection a channel topic denotes: everything after the prefix is
/// the slug, with `*` standing for every collection.
pub open spec fn channel_parse(s: Seq<char>) -> Option<CollectionV> {
    if s.len() >= 11 && s.take(11) == channel_prefix() {
        if s.skip(11) =~= seq!['*'] {
            Some(CollectionV::All)
        } else {
            Some(CollectionV::Collection(s.skip(11)))
        }
    } else {
        None
    }
}

impl Collection {
    /// The channel topic this identifier subscribes to.
    pub fn to_channel_string(&self) -> (r: String)
        ensures
            r@ == channel_text(self@),
    {
        proof {
            reveal_strlit("collection:");
            reveal_strlit("*");
            assert("*"@ =~= seq!['*']);
        }
        let mut out = String::from_str("collection:");
        match self {
            Collection::Collection(s) => out.append(s.as_str()),
            Collection::All => out.append("*"),
        }
        out
    }

    /// The identifier a channel topic denotes, if it carries the
    /// collection prefix.
    pub fn from_channel_string(s: &str) -> (r: Option<Collection>)
        ensures
            match r {
                Some(c) => channel_parse(s@) == Some(c@),
                None => channel_parse(s@) is None,
            },
    {
        proof {
            reveal_strlit("collection:");
            assert(channel_prefix().len() == 11);
        }
        let n = s.unicode_len();
        if n < 11 {
            return None;
        }
        let head = s.substring_char(0, 11);
        if !str_eq(head, "collection:") {
            proof {
                assert(head@ =~= s@.take(11));
            }
            return None;
        }
        let rest = s.substring_char(11, n);
        proof {
            assert(head@ =~= s@.take(11));
            assert(rest@ =~= s@.skip(11));
            reveal_strlit("*");
            assert("*"@ =~= seq!['*']);
        }
        if str_eq(rest, "*") {
            Some(Collection::All)
        } else {
            Some(Collection::Collection(rest.to_owned()))
        }
    }
}

/// A channel topic parses back to the identifier it was written from. The
/// one identifier this cannot hold of is a collection whose slug is the
/// wildcard text itself, whose topic reads as the wildcard.
pub proof fn lemma_channel_round_trip(c: CollectionV)
    ensures
        (c is Collection ==> c->0 != seq!['*']) ==> channel_parse(channel_text(c)) == Some(c),
{
    reveal_strlit("collection:");
    assert(channel_prefix().len() == 11);
    let t = channel_text(c);
    match c {
        CollectionV::Collection(s) => {
            assert(t.take(11) =~= channel_prefix());
            assert(t.skip(11) =~= s);
        },
        CollectionV::All => {
            assert(t.take(11) =~= channel_prefix());
            assert(t.skip(11) =~= seq!['*']);
        },
    }
}

/// The websocket to connect to: one socket serves the mainnet chains, the
/// other the testnets.
#[derive(Clone, Copy, Debug, PartialEq, Eq, Structural)]
pub enum Network {
    /// Mainnet chains.
    Mainnet,
    /// Testnet chains.
    Testnet,
}

/// The socket address of each network.
pub open spec fn network_url(n: Network) -> Seq<char> {
    match n {
        Network::Mainnet => "wss://stream.openseabeta.com/socket/websocket"@,
        Network::Testnet => "wss://testnets-stream.openseabeta.com/socket/websocket"@,
    }
}

impl Network {
    /// The socket address of this network, before the API key is attached.
    pub fn socket_url(&self) -> (r: &'static str)
        ensures
            r@ == network_url(*self),
    {
        match self {
            Network::Mainnet => "wss://stream.openseabeta.com/socket/websocket",
            Network::Testnet => "wss://testnets-stream.openseabeta.com/socket/websocket",
        }
    }
}

/// Receivable events of the channel protocol. This names an event kind
/// without carrying its record; it belongs to the message framing, not to
/// the payload schema.
#[derive(Clone, Copy, Debug, PartialEq, Eq, Hash, Structural)]
pub enum Event {
    /// An item has been listed for sale.
    ItemListed,
    /// An item has been sold.
    ItemSold,
    /// An item has been transferred from one wallet to another.
    ItemTransferred,
    /// An item has had its metadata updated.
    ItemMetadataUpdated,
    /// An item has had its listing cancelled.
    ItemCancelled,
    /// An item has received an offer.
    ItemReceivedOffer,
    /// An item has received a bid.
    ItemReceivedBid,
}

/// The wire name of each event kind, as used by the channel protocol.
pub open spec fn event_name(e: Event) -> Seq<char> {
    match e {
        Event::ItemListed => "item_listed"@,
        Event::ItemSold => "item_sold"@,
        Event::ItemTransferred => "item_transferred"@,
        Event::ItemMetadataUpdated => "item_metadata_updated"@,
        Event::ItemCancelled => "item_cancelled"@,
        Event::ItemReceivedOffer => "item_received_offer"@,
        Event::ItemReceivedBid => "item_received_bid"@,
    }
}

/// The event kind a wire name denotes, if any.
pub open spec fn event_of_name(s: Seq<char>) -> Option<Event> {
    if s == "item_listed"@ {
        Some(Event::ItemListed)
    } else if s == "item_sold"@ {
        Some(Event::ItemSold)
    } else if s == "item_transferred"@ {
        Some(Event::ItemTransferred)
    } else if s == "item_metadata_updated"@ {
        Some(Event::ItemMetadataUpdated)
    } else if s == "item_cancelled"@ {
        Some(Event::ItemCancelled)
    } else if s == "item_received_offer"@ {
        Some(Event::ItemReceivedOffer)
    } else if s == "item_received_bid"@ {
        Some(Event::ItemReceivedBid)
    } else {
        None
    }
}

/// The event kind of a payload.
pub open spec fn event_of_payload(p: PayloadV) -> Event {
    match p {
        PayloadV::ItemListed(_) => Event::ItemListed,
        PayloadV::ItemSold(_) => Event::ItemSold,
        PayloadV::ItemTransferred(_) => Event::ItemTransferred,
        PayloadV::ItemMetadataUpdated(_) => Event::ItemMetadataUpdated,
        PayloadV::ItemCancelled(_) => Event::ItemCancelled,
        PayloadV::ItemReceivedOffer(_) => Event::ItemReceivedOffer,
        PayloadV::ItemReceivedBid(_) => Event::ItemReceivedBid,
    }
}

impl Event {
    /// The wire name of this event kind.
    pub fn name(&self) -> (r: &'static str)
        ensures
            r@ == event_name(*self),
    {
        match self {
            Event::ItemListed => "item_listed",
            Event::ItemSold => "item_sold",
            Event::ItemTransferred => "item_transferred",
            Event::ItemMetadataUpdated => "item_metadata_updated",
            Event::ItemCancelled => "item_cancelled",
            Event::ItemReceivedOffer => "item_received_offer",
            Event::ItemReceivedBid => "item_received_bid",
        }
    }

    /// Look a wire name up.
    pub fn from_name(s: &str) -> (r: Option<Event>)
        ensures
            r == event_of_name(s@),
    {
        if str_eq(s, "item_listed") {
            Some(Event::ItemListed)
        } else if str_eq(s, "item_sold") {
            Some(Event::ItemSold)
        } else if str_eq(s, "item_transferred") {
            Some(Event::ItemTransferred)
        } else if str_eq(s, "item_metadata_updated") {
            Some(Event::ItemMetadataUpdated)
        } else if str_eq(s, "item_cancelled") {
            Some(Event::ItemCancelled)
        } else if str_eq(s, "item_received_offer") {
            Some(Event::ItemReceivedOffer)
        } else if str_eq(s, "item_received_bid") {
            Some(Event::ItemReceivedBid)
        } else {
            None
        }
    }

    /// The event kind of a payload.
    pub fn from_payload(p: &Payload) -> (r: Event)
        ensures
            r == event_of_payload(p@),
    {
        match p {
            Payload::ItemListed(_) => Event::ItemListed,
            Payload::ItemSold(_) => Event::ItemSold,
            Payload::ItemTransferred(_) => Event::ItemTransferred,
            Payload::ItemMetadataUpdated(_) => Event::ItemMetadataUpdated,
            Payload::ItemCancelled(_) => Event::ItemCancelled,
            Payload::ItemReceivedOffer(_) => Event::ItemReceivedOffer,
            Payload::ItemReceivedBid(_) => Event::ItemReceivedBid,
        }
    }
}

/// The event-name mapping is bidirectional, and an event's wire name is
/// exactly the discriminant tag its payload carries in `event_type`.
pub proof fn lemma_event_name_round_trip(e: Event, p: PayloadV)
    ensures
        event_of_name(event_name(e)) == Some(e),
        event_name(event_of_payload(p)) == crate::codec::payload_tag(p),
{
    reveal_strlit("item_listed");
    reveal_strlit("item_sold");
    reveal_strlit("item_transferred");
    reveal_strlit("item_metadata_updated");
    reveal_strlit("item_cancelled");
    reveal_strlit("item_received_offer");
    reveal_strlit("item_received_bid");
    assert("item_listed"@.len() == 11 && "item_sold"@.len() == 9 && "item_transferred"@.len()
        == 16 && "item_metadata_updated"@.len() == 21 && "item_cancelled"@.len() == 14
        && "item_received_offer"@.len() == 19 && "item_received_bid"@.len() == 17);
}

} // verus!
