use std::str::FromStr;
use swap_rescue::chain::{
    chain_debug_text, chain_from_lowercase, chain_label, electrum_connections,
    is_address_for_chain, parse_chain, rescue_fee_sats, BitcoinChain, Chain, LiquidChain,
};

const BTC: Chain = Chain::Bitcoin(BitcoinChain::Bitcoin);
const LBTC: Chain = Chain::Liquid(LiquidChain::Liquid);

fn liquid_address(params: &'static elements::AddressParams) -> String {
    let pk = elements::bitcoin::PublicKey::from_str(
        "0279be667ef9dcbbac55a06295ce870b07029bfcdb2dce28d959f2815b16f81798",
    )
    .unwrap();
    elements::Address::p2wpkh(&pk, None, params).to_string()
}

#[test]
fn network_names_ignore_case() {
    assert_eq!(parse_chain("bitcoin"), Ok(BTC));
    assert_eq!(parse_chain("BTC"), Ok(BTC));
    assert_eq!(parse_chain("Bitcoin"), Ok(BTC));
    assert_eq!(parse_chain("liquid"), Ok(LBTC));
    assert_eq!(parse_chain("LBTC"), Ok(LBTC));
    assert_eq!(parse_chain("LiQuId"), Ok(LBTC));
}

#[test]
fn unknown_network_name_is_reported() {
    assert_eq!(
        parse_chain("Ethereum"),
        Err("Invalid chain: Ethereum. Use 'bitcoin' or 'liquid'".to_string())
    );
    assert_eq!(
        parse_chain(""),
        Err("Invalid chain: . Use 'bitcoin' or 'liquid'".to_string())
    );
    assert_eq!(
        parse_chain(" bitcoin"),
        Err("Invalid chain:  bitcoin. Use 'bitcoin' or 'liquid'".to_string())
    );
    assert_eq!(
        chain_from_lowercase("BTC", "BTC"),
        Err("Invalid chain: BTC. Use 'bitcoin' or 'liquid'".to_string())
    );
    assert_eq!(chain_from_lowercase("btc", "BTC"), Ok(BTC));
}

#[test]
fn labels_fees_and_debug_names() {
    assert_eq!(chain_label(BTC), "Bitcoin (BTC)");
    assert_eq!(chain_label(Chain::Liquid(LiquidChain::LiquidTestnet)), "Liquid (LBTC)");
    assert_eq!(rescue_fee_sats(BTC), 300);
    assert_eq!(rescue_fee_sats(LBTC), 30);
    assert_eq!(chain_debug_text(BTC), format!("{:?}", BTC));
    assert_eq!(chain_debug_text(LBTC), "Liquid(Liquid)");
    assert_eq!(
        chain_debug_text(Chain::Bitcoin(BitcoinChain::BitcoinRegtest)),
        "Bitcoin(BitcoinRegtest)"
    );
}

#[test]
fn electrum_connections_per_family() {
    assert_eq!(electrum_connections(BTC, BTC), vec![BTC]);
    assert_eq!(electrum_connections(BTC, LBTC), vec![BTC, LBTC]);
    assert_eq!(electrum_connections(LBTC, BTC), vec![LBTC, BTC]);
    assert_eq!(
        electrum_connections(LBTC, Chain::Liquid(LiquidChain::LiquidTestnet)),
        vec![LBTC]
    );
}

#[test]
fn bitcoin_addresses() {
    let segwit = "bc1qw508d6qejxtdg4y5r3zarvary0c5xw7kv8f3t4";
    assert!(is_address_for_chain(segwit, BTC));
    assert!(is_address_for_chain(&format!("  {}\n", segwit), BTC));
    assert!(is_address_for_chain("1BvBMSEYstWetqTFn5Au4m4GFg7xJaNVN2", BTC));
    assert!(!is_address_for_chain("tb1qw508d6qejxtdg4y5r3zarvary0c5xw7kxpjzsx", BTC));
    assert!(!is_address_for_chain("not an address", BTC));
    assert!(!is_address_for_chain("   ", BTC));
    assert!(!is_address_for_chain(segwit, LBTC));
}

#[test]
fn liquid_addresses() {
    let mainnet = liquid_address(&elements::AddressParams::LIQUID);
    let testnet = liquid_address(&elements::AddressParams::LIQUID_TESTNET);
    assert!(is_address_for_chain(&mainnet, LBTC));
    assert!(is_address_for_chain(&format!(" {} ", mainnet), LBTC));
    assert!(!is_address_for_chain(&testnet, LBTC));
    assert!(!is_address_for_chain(&mainnet, BTC));
    assert!(!is_address_for_chain("", LBTC));
}

#[test]
fn ascii_case_variants_parse_alike() {
    for name in ["BiTcOiN", "btc", "Liquid", "lBtC", "Ethereum", "  liquid"] {
        let plain = parse_chain(name).ok();
        assert_eq!(parse_chain(&name.to_ascii_uppercase()).ok(), plain);
        assert_eq!(parse_chain(&name.to_ascii_lowercase()).ok(), plain);
    }
    assert_eq!(parse_chain("BiTcOiN"), Ok(BTC));
}
