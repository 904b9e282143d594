//! The closed enumeration of supported networks, and the auction kinds,
//! with their bidirectional lowercase wire names.

use vstd::prelude::*;

verus! {

/// Network an item is on.
#[derive(Clone, Copy, Debug, PartialEq, Eq, Structural)]
pub enum Chain {
    /// Ethereum mainnet.
    Ethereum,
    /// Polygon mainnet; its wire name is the irregular `matic`.
    Polygon,
    /// Klaytn mainnet.
    Klaytn,
    /// Solana mainnet.
    Solana,
    /// Rinkeby, a testnet of Ethereum.
    Rinkeby,
    /// Mumbai, a testnet of Polygon.
    Mumbai,
    /// Baobab, a testnet of Klaytn.
    Baobab,
}

/// The wire name of each chain.
pub open spec fn chain_name(c: Chain) -> Seq<char> {
    match c {
        Chain::Ethereum => "ethereum"@,
        Chain::Polygon => "matic"@,
        Chain::Klaytn => "klaytn"@,
        Chain::Solana => "solana"@,
        Chain::Rinkeby => "rinkeby"@,
        Chain::Mumbai => "mumbai"@,
        Chain::Baobab => "baobab"@,
    }
}

/// The chain a wire name denotes, if any. Lookup is case-sensitive and
/// admits only the lowercase names.
pub open spec fn chain_of_name(s: Seq<char>) -> Option<Chain> {
    if s == "ethereum"@ {
        Some(Chain::Ethereum)
    } else if s == "matic"@ {
        Some(Chain::Polygon)
    } else if s == "klaytn"@ {
        Some(Chain::Klaytn)
    } else if s == "solana"@ {
        Some(Chain::Solana)
    } else if s == "rinkeby"@ {
        Some(Chain::Rinkeby)
    } else if s == "mumbai"@ {
        Some(Chain::Mumbai)
    } else if s == "baobab"@ {
        Some(Chain::Baobab)
    } else {
        None
    }
}

impl Chain {
    /// The lowercase wire name of this chain.
    pub fn name(&self) -> (r: &'static str)
        ensures
            r@ == chain_name(*self),
    {
        match self {
            Chain::Ethereum => "ethereum",
            Chain::Polygon => "matic",
            Chain::Klaytn => "klaytn",
            Chain::Solana => "solana",
            Chain::Rinkeby => "rinkeby",
            Chain::Mumbai => "mumbai",
            Chain::Baobab => "baobab",
        }
    }

    /// Look a wire name up.
    pub fn from_name(s: &str) -> (r: Option<Chain>)
        ensures
            r == chain_of_name(s@),
    {
        if crate::json::str_eq(s, "ethereum") {
            Some(Chain::Ethereum)
        } else if crate::json::str_eq(s, "matic") {
            Some(Chain::Polygon)
        } else if crate::json::str_eq(s, "klaytn") {
            Some(Chain::Klaytn)
        } else if crate::json::str_eq(s, "solana") {
            Some(Chain::Solana)
        } else if crate::json::str_eq(s, "rinkeby") {
            Some(Chain::Rinkeby)
        } else if crate::json::str_eq(s, "mumbai") {
            Some(Chain::Mumbai)
        } else if crate::json::str_eq(s, "baobab") {
            Some(Chain::Baobab)
        } else {
            None
        }
    }
}

/// The chain-name mapping is bidirectional: every name looks back up to its
/// chain, and the names contain no `/`, so a composite identifier splits
/// unambiguously.
pub proof fn lemma_chain_name_round_trip(c: Chain)
    ensures
        chain_of_name(chain_name(c)) == Some(c),
        chain_name(c).len() > 0,
        forall|i: int| 0 <= i < chain_name(c).len() ==> #[trigger] chain_name(c)[i] != '/',
{
    reveal_strlit("ethereum");
    reveal_strlit("matic");
    reveal_strlit("klaytn");
    reveal_strlit("solana");
    reveal_strlit("rinkeby");
    reveal_strlit("mumbai");
    reveal_strlit("baobab");
    assert("ethereum"@.len() == 8 && "matic"@.len() == 5 && "klaytn"@.len() == 6 && "solana"@.len()
        == 6 && "rinkeby"@.len() == 7 && "mumbai"@.len() == 6 && "baobab"@.len() == 6);
    assert("klaytn"@[0] == 'k' && "solana"@[0] == 's' && "mumbai"@[0] == 'm' && "baobab"@[0]
        == 'b');
}

/// Auctioning system used by a listing. Its absence on the wire means the
/// listing is a buyout, so the field is always carried as an option.
#[derive(Clone, Copy, Debug, PartialEq, Eq, Structural)]
pub enum ListingType {
    /// English (ascending) auction.
    English,
    /// Dutch (descending) auction.
    Dutch,
}

/// The wire name of each auction kind.
pub open spec fn listing_type_name(l: ListingType) -> Seq<char> {
    match l {
        ListingType::English => "english"@,
        ListingType::Dutch => "dutch"@,
    }
}

/// The auction kind a wire name denotes, if any.
pub open spec fn listing_type_of_name(s: Seq<char>) -> Option<ListingType> {
    if s == "english"@ {
        Some(ListingType::English)
    } else if s == "dutch"@ {
        Some(ListingType::Dutch)
    } else {
        None
    }
}

impl ListingType {
    /// The lowercase wire name of this auction kind.
    pub fn name(&self) -> (r: &'static str)
        ensures
            r@ == listing_type_name(*self),
    {
        match self {
            ListingType::English => "english",
            ListingType::Dutch => "dutch",
        }
    }

    /// Look a wire name up.
    pub fn from_name(s: &str) -> (r: Option<ListingType>)
        ensures
            r == listing_type_of_name(s@),
    {
        if crate::json::str_eq(s, "english") {
            Some(ListingType::English)
        } else if crate::json::str_eq(s, "dutch") {
            Some(ListingType::Dutch)
        } else {
            None
        }
    }

    /// The human-readable label of this auction kind.
    pub fn label(&self) -> (r: &'static str)
        ensures
            *self == ListingType::English ==> r@ == "English"@,
            *self == ListingType::Dutch ==> r@ == "Dutch"@,
    {
        match self {
            ListingType::English => "English",
            ListingType::Dutch => "Dutch",
        }
    }
}

/// The auction-kind mapping is bidirectional.
pub proof fn lemma_listing_type_round_trip(l: ListingType)
    ensures
        listing_type_of_name(listing_type_name(l)) == Some(l),
{
    reveal_strlit("english");
    reveal_strlit("dutch");
    assert("english"@.len() == 7 && "dutch"@.len() == 5);
}

} // verus!
