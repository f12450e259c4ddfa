use swap_rescue::config::{
    check_provider_input, default_swap_type, validate_provider_config, Config, LeafConfig,
    ProviderInput,
};

fn input(rescue_type: &str, swap_type: &str) -> ProviderInput {
    ProviderInput {
        rescue_type: rescue_type.to_string(),
        swap_type: swap_type.to_string(),
        claim_leaf: LeafConfig { output: "a914claim".to_string(), version: 196 },
        refund_leaf: LeafConfig { output: "20refund".to_string(), version: 196 },
        from_network_str: "bitcoin".to_string(),
        to_network_str: "liquid".to_string(),
        blinding_key: Some("blindkey".to_string()),
        timeout_block_height: 850000,
        server_public_key: "02abc".to_string(),
        user_lockup_address: "bc1quser".to_string(),
        server_lockup_address: Some("lq1server".to_string()),
        amount: 100000,
        swap_id: "swap123".to_string(),
        preimage: Some("00ff".to_string()),
    }
}

fn validate(p: ProviderInput) -> Result<(), String> {
    validate_provider_config(&Config { provider_input: p })
}

#[test]
fn default_swap_type_is_chain() {
    assert_eq!(default_swap_type(), "chain");
}

#[test]
fn supported_flows_pass() {
    assert_eq!(validate(input("claim", "chain")), Ok(()));
    assert_eq!(validate(input("refund", "chain")), Ok(()));
    assert_eq!(validate(input("refund", "submarine")), Ok(()));
    assert_eq!(validate(input("claim", "reverse")), Ok(()));
    assert_eq!(validate(input("CLAIM", "Chain")), Ok(()));
}

#[test]
fn optional_fields_by_flow() {
    let mut p = input("refund", "submarine");
    p.to_network_str = String::new();
    p.server_lockup_address = None;
    p.preimage = None;
    assert_eq!(validate(p), Ok(()));

    let mut p = input("claim", "reverse");
    p.to_network_str = "  ".to_string();
    p.server_lockup_address = None;
    assert_eq!(validate(p), Ok(()));

    let mut p = input("refund", "chain");
    p.server_lockup_address = None;
    p.preimage = None;
    assert_eq!(validate(p), Ok(()));
}

fn err(p: ProviderInput) -> String {
    validate(p).unwrap_err()
}

#[test]
fn rescue_type_errors() {
    assert_eq!(err(input("  ", "chain")), "rescue_type is required in provider_input");
    assert_eq!(
        err(input("sweep", "chain")),
        "rescue_type must be 'claim' or 'refund', got 'sweep'"
    );
}

#[test]
fn swap_type_errors() {
    assert_eq!(
        err(input("claim", "Lightning")),
        "swap_type must be 'chain', 'submarine', or 'reverse', got 'Lightning'"
    );
    assert_eq!(
        err(input("refund", "reverse")),
        "reverse swaps only support rescue_type 'claim' (user cannot refund a reverse swap)"
    );
    assert_eq!(
        err(input("claim", "submarine")),
        "submarine swaps only support rescue_type 'refund' on the user side"
    );
}

#[test]
fn missing_field_errors() {
    let mut p = input("claim", "chain");
    p.claim_leaf.output = " ".to_string();
    assert_eq!(err(p), "claim_leaf.output is required in provider_input");
    let mut p = input("claim", "chain");
    p.refund_leaf.output = String::new();
    assert_eq!(err(p), "refund_leaf.output is required in provider_input");
    let mut p = input("claim", "chain");
    p.from_network_str = "\t".to_string();
    assert_eq!(err(p), "from_network is required in provider_input");
    let mut p = input("refund", "chain");
    p.to_network_str = String::new();
    assert_eq!(err(p), "to_network is required in provider_input for chain swaps");
    let mut p = input("claim", "chain");
    p.timeout_block_height = 0;
    assert_eq!(err(p), "timeout_block_height must be greater than 0 in provider_input");
    let mut p = input("claim", "chain");
    p.server_public_key = String::new();
    assert_eq!(err(p), "server_public_key is required in provider_input");
    let mut p = input("claim", "chain");
    p.user_lockup_address = String::new();
    assert_eq!(err(p), "user_lockup_address is required in provider_input");
    let mut p = input("claim", "chain");
    p.server_lockup_address = Some("  ".to_string());
    assert_eq!(err(p), "server_lockup_address is required for chain swap claims");
    let mut p = input("claim", "chain");
    p.server_lockup_address = None;
    assert_eq!(err(p), "server_lockup_address is required for chain swap claims");
    let mut p = input("claim", "chain");
    p.amount = 0;
    assert_eq!(err(p), "amount must be greater than 0 in provider_input");
    let mut p = input("claim", "chain");
    p.swap_id = " ".to_string();
    assert_eq!(err(p), "swap_id is required in provider_input");
}

#[test]
fn preimage_errors() {
    let mut p = input("claim", "chain");
    p.preimage = None;
    assert_eq!(err(p), "preimage is required in provider_input for chain claim");
    let mut p = input("Claim", "REVERSE");
    p.preimage = Some("   ".to_string());
    assert_eq!(err(p), "preimage is required in provider_input for reverse claim");
}

#[test]
fn first_broken_rule_wins() {
    let mut p = input("claim", "chain");
    p.amount = 0;
    p.swap_id = String::new();
    p.preimage = None;
    assert_eq!(err(p), "amount must be greater than 0 in provider_input");
}

#[test]
fn check_takes_lowercased_types() {
    let p = input("CLAIM", "CHAIN");
    assert_eq!(check_provider_input(&p, "claim", "chain", "bitcoin", "liquid"), Ok(()));
    assert_eq!(
        check_provider_input(&p, "CLAIM", "chain", "bitcoin", "liquid"),
        Err("rescue_type must be 'claim' or 'refund', got 'CLAIM'".to_string())
    );
}

#[test]
fn config_clone_is_equal() {
    let c = Config { provider_input: input("claim", "chain") };
    let d = c.clone();
    assert_eq!(format!("{:?}", c), format!("{:?}", d));
}

#[test]
fn validation_ignores_ascii_case_of_types() {
    let pairs = [
        ("claim", "chain"),
        ("refund", "submarine"),
        ("claim", "reverse"),
        ("refund", "reverse"),
        ("claim", "submarine"),
        ("sweep", "chain"),
        ("  ", "chain"),
    ];
    for (rt, st) in pairs {
        let plain = validate(input(rt, st)).is_ok();
        let upper = validate(input(&rt.to_ascii_uppercase(), &st.to_ascii_uppercase())).is_ok();
        let mixed = validate(input(&rt.to_ascii_uppercase(), st)).is_ok();
        assert_eq!(plain, upper);
        assert_eq!(plain, mixed);
    }
    assert_eq!(validate(input("REFUND", "SUBMARINE")), Ok(()));
}

#[test]
fn network_names_must_name_a_chain() {
    let mut p = input("refund", "submarine");
    p.from_network_str = "dogecoin".to_string();
    assert_eq!(
        err(p),
        "Invalid from_network: Invalid chain: dogecoin. Use 'bitcoin' or 'liquid'"
    );
    let mut p = input("claim", "chain");
    p.to_network_str = "Ethereum".to_string();
    assert_eq!(
        err(p),
        "Invalid to_network: Invalid chain: Ethereum. Use 'bitcoin' or 'liquid'"
    );
    let mut p = input("refund", "submarine");
    p.from_network_str = "LBTC".to_string();
    p.to_network_str = "dogecoin".to_string();
    assert_eq!(validate(p), Ok(()));
    let mut p = input("claim", "chain");
    p.from_network_str = "BTC".to_string();
    p.to_network_str = "Liquid".to_string();
    assert_eq!(validate(p), Ok(()));
}

#[test]
fn blinding_key_required_on_liquid() {
    let msg = "blinding_key is required in provider_input for Liquid swaps";
    let mut p = input("refund", "submarine");
    p.from_network_str = "liquid".to_string();
    p.blinding_key = None;
    assert_eq!(err(p), msg);
    let mut p = input("claim", "reverse");
    p.from_network_str = "lbtc".to_string();
    p.blinding_key = Some("  ".to_string());
    assert_eq!(err(p), msg);
    let mut p = input("claim", "chain");
    p.blinding_key = None;
    assert_eq!(err(p), msg);

    let mut p = input("refund", "submarine");
    p.blinding_key = None;
    assert_eq!(validate(p), Ok(()));
    let mut p = input("refund", "chain");
    p.blinding_key = None;
    assert_eq!(validate(p), Ok(()));
    let mut p = input("claim", "chain");
    p.from_network_str = "liquid".to_string();
    p.to_network_str = "bitcoin".to_string();
    p.blinding_key = None;
    assert_eq!(validate(p), Ok(()));
}
