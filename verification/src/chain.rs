//! Networks a swap can live on, how a network is named in a provider config,
//! and which addresses belong to it.

use vstd::prelude::*;
use crate::text::{
    ascii_lower, ascii_upper, is_ascii_text, lemma_ascii_lower_same_lower,
    lemma_ascii_upper_same_lower, lowercase, str_eq, to_lowercase, trim, trim_str,
};

verus! {

/// The Bitcoin networks.
#[derive(Clone, Copy, Debug, PartialEq, Eq, Structural)]
pub enum BitcoinChain {
    Bitcoin,
    BitcoinTestnet,
    BitcoinRegtest,
}

/// The Liquid networks.
#[derive(Clone, Copy, Debug, PartialEq, Eq, Structural)]
pub enum LiquidChain {
    Liquid,
    LiquidTestnet,
    LiquidRegtest,
}

/// A chain on which a swap locks funds.
#[derive(Clone, Copy, Debug, PartialEq, Eq, Structural)]
pub enum Chain {
    Bitcoin(BitcoinChain),
    Liquid(LiquidChain),
}

/// The chain that a lowercased network name denotes: `bitcoin`/`btc` for
/// Bitcoin mainnet, `liquid`/`lbtc` for Liquid mainnet.
pub open spec fn chain_named(lower: Seq<char>) -> Option<Chain> {
    if lower == "bitcoin"@ || lower == "btc"@ {
        Some(Chain::Bitcoin(BitcoinChain::Bitcoin))
    } else if lower == "liquid"@ || lower == "lbtc"@ {
        Some(Chain::Liquid(LiquidChain::Liquid))
    } else {
        None
    }
}

/// The error text for a network name that denotes no chain.
pub open spec fn invalid_chain_message(input: Seq<char>) -> Seq<char> {
    "Invalid chain: "@ + input + ". Use 'bitcoin' or 'liquid'"@
}

/// The error text for a network field that names no chain.
pub open spec fn invalid_network_message(field: Seq<char>, input: Seq<char>) -> Seq<char> {
    "Invalid "@ + field + ": "@ + invalid_chain_message(input)
}

/// The error for the network field `field`, from the parse error `e`.
pub fn network_error(field: &str, e: String) -> (r: String)
    ensures
        r@ == "Invalid "@ + field@ + ": "@ + e@,
{
    String::from_str("Invalid ").concat(field).concat(": ").concat(e.as_str())
}

/// What parsing `input` gives once it has been lowercased to `lower`.
pub open spec fn chain_result_spec(lower: Seq<char>, input: Seq<char>, r: Result<Chain, String>) -> bool {
    match r {
        Ok(c) => chain_named(lower) == Some(c),
        Err(e) => chain_named(lower) is None && e@ == invalid_chain_message(input),
    }
}

/// The chain named by `lower`, the lowercased form of the network name
/// `input`; the error quotes `input` as it was written.
pub fn chain_from_lowercase(lower: &str, input: &str) -> (r: Result<Chain, String>)
    ensures
        chain_result_spec(lower@, input@, r),
{
    if str_eq(lower, "bitcoin") || str_eq(lower, "btc") {
        Ok(Chain::Bitcoin(BitcoinChain::Bitcoin))
    } else if str_eq(lower, "liquid") || str_eq(lower, "lbtc") {
        Ok(Chain::Liquid(LiquidChain::Liquid))
    } else {
        let msg = String::from_str("Invalid chain: ").concat(input).concat(
            ". Use 'bitcoin' or 'liquid'",
        );
        Err(msg)
    }
}

/// Parses a network name of a provider config, ignoring case.
pub fn parse_chain(input: &str) -> (r: Result<Chain, String>)
    ensures
        chain_result_spec(lowercase(input@), input@, r),
        is_ascii_text(input@) ==> chain_result_spec(ascii_lower(input@), input@, r),
{
    let lower = to_lowercase(input);
    chain_from_lowercase(lower.as_str(), input)
}

/// Network names that lowercase alike are parsed alike: both denote the same
/// chain or both are refused.
pub proof fn lemma_network_names_ignore_case(
    a: Seq<char>,
    b: Seq<char>,
    ra: Result<Chain, String>,
    rb: Result<Chain, String>,
)
    requires
        lowercase(a) == lowercase(b),
        chain_result_spec(lowercase(a), a, ra),
        chain_result_spec(lowercase(b), b, rb),
    ensures
        (ra is Ok) == (rb is Ok),
        ra matches Ok(x) ==> rb matches Ok(y) && x == y,
{
}

/// ASCII network names that differ only in the case of their letters are
/// parsed alike: `s`, its uppercase and its lowercase form all denote the
/// same chain, or are all refused.
pub proof fn lemma_ascii_case_variants_parse_alike(
    s: Seq<char>,
    r: Result<Chain, String>,
    r_upper: Result<Chain, String>,
    r_lower: Result<Chain, String>,
)
    requires
        is_ascii_text(s),
        chain_result_spec(ascii_lower(s), s, r),
        is_ascii_text(ascii_upper(s)) ==> chain_result_spec(
            ascii_lower(ascii_upper(s)),
            ascii_upper(s),
            r_upper,
        ),
        is_ascii_text(ascii_lower(s)) ==> chain_result_spec(
            ascii_lower(ascii_lower(s)),
            ascii_lower(s),
            r_lower,
        ),
    ensures
        (r is Ok) == (r_upper is Ok),
        (r is Ok) == (r_lower is Ok),
        r matches Ok(x) ==> r_upper matches Ok(y) && x == y,
        r matches Ok(x) ==> r_lower matches Ok(y) && x == y,
{
    lemma_ascii_upper_same_lower(s);
    lemma_ascii_lower_same_lower(s);
}

/// Whether `a` and `b` are both Bitcoin or both Liquid networks.
pub open spec fn same_family(a: Chain, b: Chain) -> bool {
    (a is Bitcoin) == (b is Bitcoin)
}

/// The label under which the tool names the network of a return address.
pub open spec fn chain_label_spec(c: Chain) -> Seq<char> {
    match c {
        Chain::Bitcoin(_) => "Bitcoin (BTC)"@,
        Chain::Liquid(_) => "Liquid (LBTC)"@,
    }
}

/// The label under which the tool names the network of a return address.
pub fn chain_label(c: Chain) -> (r: &'static str)
    ensures
        r@ == chain_label_spec(c),
{
    match c {
        Chain::Bitcoin(_) => "Bitcoin (BTC)",
        Chain::Liquid(_) => "Liquid (LBTC)",
    }
}

/// The chain as its debug form prints it, e.g. `Bitcoin(Bitcoin)`.
pub open spec fn chain_debug_spec(c: Chain) -> Seq<char> {
    match c {
        Chain::Bitcoin(BitcoinChain::Bitcoin) => "Bitcoin(Bitcoin)"@,
        Chain::Bitcoin(BitcoinChain::BitcoinTestnet) => "Bitcoin(BitcoinTestnet)"@,
        Chain::Bitcoin(BitcoinChain::BitcoinRegtest) => "Bitcoin(BitcoinRegtest)"@,
        Chain::Liquid(LiquidChain::Liquid) => "Liquid(Liquid)"@,
        Chain::Liquid(LiquidChain::LiquidTestnet) => "Liquid(LiquidTestnet)"@,
        Chain::Liquid(LiquidChain::LiquidRegtest) => "Liquid(LiquidRegtest)"@,
    }
}

/// The chain as its debug form prints it, e.g. `Bitcoin(Bitcoin)`.
pub fn chain_debug_text(c: Chain) -> (r: &'static str)
    ensures
        r@ == chain_debug_spec(c),
{
    match c {
        Chain::Bitcoin(BitcoinChain::Bitcoin) => "Bitcoin(Bitcoin)",
        Chain::Bitcoin(BitcoinChain::BitcoinTestnet) => "Bitcoin(BitcoinTestnet)",
        Chain::Bitcoin(BitcoinChain::BitcoinRegtest) => "Bitcoin(BitcoinRegtest)",
        Chain::Liquid(LiquidChain::Liquid) => "Liquid(Liquid)",
        Chain::Liquid(LiquidChain::LiquidTestnet) => "Liquid(LiquidTestnet)",
        Chain::Liquid(LiquidChain::LiquidRegtest) => "Liquid(LiquidRegtest)",
    }
}

/// The absolute fee, in satoshis, of a rescue transaction on `c`.
pub open spec fn rescue_fee_spec(c: Chain) -> u64 {
    match c {
        Chain::Liquid(_) => 30,
        Chain::Bitcoin(_) => 300,
    }
}

/// The absolute fee, in satoshis, of a rescue transaction on `c`.
pub fn rescue_fee_sats(c: Chain) -> (f: u64)
    ensures
        f == rescue_fee_spec(c),
{
    match c {
        Chain::Liquid(_) => 30,
        Chain::Bitcoin(_) => 300,
    }
}

/// The Electrum connections a rescue from `from` to `to` opens, in order:
/// one for `from`, and one for `to` when it is of the other family.
pub open spec fn electrum_connections_spec(from: Chain, to: Chain) -> Seq<Chain> {
    if same_family(from, to) {
        seq![from]
    } else {
        seq![from, to]
    }
}

/// The Electrum connections a rescue from `from` to `to` opens, in order.
pub fn electrum_connections(from: Chain, to: Chain) -> (r: Vec<Chain>)
    ensures
        r@ == electrum_connections_spec(from, to),
{
    let mut r: Vec<Chain> = Vec::new();
    r.push(from);
    let to_is_other = match (from, to) {
        (Chain::Bitcoin(_), Chain::Bitcoin(_)) => false,
        (Chain::Liquid(_), Chain::Liquid(_)) => false,
        _ => true,
    };
    if to_is_other {
        r.push(to);
    }
    assert(r@ =~= electrum_connections_spec(from, to));
    r
}

/// `s` parses as a Bitcoin address (`bitcoin::Address<NetworkUnchecked>`'s
/// `FromStr`) that `require_network(Network::Bitcoin)` accepts.
pub uninterp spec fn bitcoin_mainnet_address(s: Seq<char>) -> bool;

/// `s` parses as an `elements::Address` whose `is_liquid()` holds.
pub uninterp spec fn liquid_address(s: Seq<char>) -> bool;

/// Parses `s` with `bitcoin::Address<NetworkUnchecked>`'s `FromStr` and
/// checks the result with `require_network(Network::Bitcoin)`. Trusted: the
/// answer is named `bitcoin_mainnet_address` of the characters of `s`.
#[verifier::external_body]
fn is_bitcoin_mainnet_address(s: &str) -> (r: bool)
    ensures
        r == bitcoin_mainnet_address(s@),
{
    match s.parse::<bitcoin::Address<bitcoin::address::NetworkUnchecked>>() {
        Ok(a) => a.require_network(bitcoin::Network::Bitcoin).is_ok(),
        Err(_) => false,
    }
}

/// Parses `s` with `elements::Address`'s `FromStr` and asks `is_liquid()` of
/// the result. Trusted: the answer is named `liquid_address` of the
/// characters of `s`.
#[verifier::external_body]
fn is_liquid_address(s: &str) -> (r: bool)
    ensures
        r == liquid_address(s@),
{
    match s.parse::<elements::Address>() {
        Ok(a) => a.is_liquid(),
        Err(_) => false,
    }
}

/// `addr`, trimmed, is a non-empty address of `c`: a Bitcoin mainnet address
/// for any Bitcoin chain, a Liquid address for any Liquid chain.
pub open spec fn address_for_chain_spec(addr: Seq<char>, c: Chain) -> bool {
    let t = trim(addr);
    t.len() > 0 && match c {
        Chain::Bitcoin(_) => bitcoin_mainnet_address(t),
        Chain::Liquid(_) => liquid_address(t),
    }
}

/// Whether `addr`, trimmed, is an address of the network `c`.
pub fn is_address_for_chain(addr: &str, c: Chain) -> (r: bool)
    ensures
        r == address_for_chain_spec(addr@, c),
{
    let t = trim_str(addr);
    if t.is_empty() {
        return false;
    }
    match c {
        Chain::Bitcoin(_) => is_bitcoin_mainnet_address(t),
        Chain::Liquid(_) => is_liquid_address(t),
    }
}

} // verus!
