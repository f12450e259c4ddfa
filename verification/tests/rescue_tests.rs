use swap_rescue::chain::{BitcoinChain, Chain, LiquidChain};
use swap_rescue::config::{Config, LeafConfig, ProviderInput};
use swap_rescue::rescue::{plan_rescue, route_rescue, RescuePlan};

const BTC: Chain = Chain::Bitcoin(BitcoinChain::Bitcoin);
const LBTC: Chain = Chain::Liquid(LiquidChain::Liquid);

fn input(rescue_type: &str, swap_type: &str, from: &str, to: &str) -> ProviderInput {
    ProviderInput {
        rescue_type: rescue_type.to_string(),
        swap_type: swap_type.to_string(),
        claim_leaf: LeafConfig { output: "c".to_string(), version: 196 },
        refund_leaf: LeafConfig { output: "r".to_string(), version: 196 },
        from_network_str: from.to_string(),
        to_network_str: to.to_string(),
        blinding_key: None,
        timeout_block_height: 1,
        server_public_key: "k".to_string(),
        user_lockup_address: "u".to_string(),
        server_lockup_address: Some("srv".to_string()),
        amount: 5000,
        swap_id: "id1".to_string(),
        preimage: Some("pre".to_string()),
    }
}

fn plan(p: ProviderInput) -> Result<RescuePlan, String> {
    plan_rescue(&Config { provider_input: p }).map(|job| job.plan)
}

#[test]
fn chain_claim_plan() {
    match plan(input("Claim", "chain", "bitcoin", "LIQUID")).unwrap() {
        RescuePlan::ChainClaim { from, to, server_lockup_address, preimage } => {
            assert_eq!(from, BTC);
            assert_eq!(to, LBTC);
            assert_eq!(server_lockup_address, "srv");
            assert_eq!(preimage, Some("pre".to_string()));
        }
        other => panic!("unexpected plan {:?}", other),
    }
}

#[test]
fn chain_refund_plan() {
    match plan(input("refund", "chain", "liquid", "btc")).unwrap() {
        RescuePlan::ChainRefund { from, to } => {
            assert_eq!(from, LBTC);
            assert_eq!(to, BTC);
        }
        other => panic!("unexpected plan {:?}", other),
    }
}

#[test]
fn submarine_refund_plan_ignores_to_network() {
    match plan(input("refund", "submarine", "lbtc", "")).unwrap() {
        RescuePlan::SubmarineRefund { network } => assert_eq!(network, LBTC),
        other => panic!("unexpected plan {:?}", other),
    }
}

#[test]
fn reverse_claim_plan() {
    match plan(input("claim", "Reverse", "bitcoin", "")).unwrap() {
        RescuePlan::ReverseClaim { network, preimage } => {
            assert_eq!(network, BTC);
            assert_eq!(preimage, "pre");
        }
        other => panic!("unexpected plan {:?}", other),
    }
}

#[test]
fn plan_errors() {
    assert_eq!(
        plan(input("claim", "chain", "doge", "liquid")).unwrap_err(),
        "Invalid from_network: Invalid chain: doge. Use 'bitcoin' or 'liquid'"
    );
    assert_eq!(
        plan(input("refund", "chain", "bitcoin", "")).unwrap_err(),
        "Invalid to_network: Invalid chain: . Use 'bitcoin' or 'liquid'"
    );
    let mut p = input("claim", "reverse", "bitcoin", "");
    p.preimage = None;
    assert_eq!(plan(p).unwrap_err(), "preimage is required for reverse claim");
    let mut p = input("claim", "chain", "bitcoin", "liquid");
    p.server_lockup_address = None;
    assert_eq!(plan(p).unwrap_err(), "server_lockup_address is required for claim rescue");
}

#[test]
fn route_takes_lowercased_names() {
    let p = input("x", "y", "Bitcoin", "Liquid");
    match route_rescue(&p, "refund", "chain", "bitcoin", "liquid").unwrap() {
        RescuePlan::ChainRefund { from, to } => {
            assert_eq!(from, BTC);
            assert_eq!(to, LBTC);
        }
        other => panic!("unexpected plan {:?}", other),
    }
    assert_eq!(
        route_rescue(&p, "refund", "chain", "Bitcoin", "liquid").unwrap_err(),
        "Invalid from_network: Invalid chain: Bitcoin. Use 'bitcoin' or 'liquid'"
    );
}

#[test]
fn summary_of_a_job() {
    let job = plan_rescue(&Config { provider_input: input("CLAIM", "Chain", "bitcoin", "liquid") })
        .unwrap();
    assert_eq!(job.swap_type, "chain");
    assert_eq!(job.rescue_type, "claim");
    assert_eq!(job.plan.target_network(), LBTC);
    let s = job.summary(5000, "lq1dest", "id1");
    assert_eq!(s.amount, 5000);
    assert_eq!(s.return_address, "lq1dest");
    assert_eq!(s.network, "Liquid(Liquid)");
    assert_eq!(s.swap_id, "id1");
    assert_eq!(s.rescue_type, "chain claim");
    let t = s.clone();
    assert_eq!(t.network, s.network);
}

#[test]
fn plan_fee_and_connections() {
    let p = plan(input("claim", "chain", "bitcoin", "liquid")).unwrap();
    assert_eq!(p.fee_sats(), 30);
    assert_eq!(p.connections(), vec![BTC, LBTC]);
    let p = plan(input("refund", "chain", "bitcoin", "liquid")).unwrap();
    assert_eq!(p.fee_sats(), 300);
    assert_eq!(p.connections(), vec![BTC, LBTC]);
    let p = plan(input("refund", "chain", "bitcoin", "btc")).unwrap();
    assert_eq!(p.connections(), vec![BTC]);
    let p = plan(input("refund", "submarine", "liquid", "bitcoin")).unwrap();
    assert_eq!(p.fee_sats(), 30);
    assert_eq!(p.connections(), vec![LBTC]);
    let p = plan(input("claim", "reverse", "bitcoin", "")).unwrap();
    assert_eq!(p.fee_sats(), 300);
    assert_eq!(p.connections(), vec![BTC]);
}
