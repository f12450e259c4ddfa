use std::str::FromStr;
use swap_rescue::config::{Config, LeafConfig, ProviderInput};
use swap_rescue::gui::app::{AppState, Effect, Message, SwapRescueApp};
use swap_rescue::rescue::RescueSummary;

const MNEMONIC_12: &str =
    "abandon abandon abandon abandon abandon abandon abandon abandon abandon abandon abandon about";

fn config(rescue_type: &str, swap_type: &str, from: &str, to: &str) -> Config {
    Config {
        provider_input: ProviderInput {
            rescue_type: rescue_type.to_string(),
            swap_type: swap_type.to_string(),
            claim_leaf: LeafConfig { output: "c".to_string(), version: 196 },
            refund_leaf: LeafConfig { output: "r".to_string(), version: 196 },
            from_network_str: from.to_string(),
            to_network_str: to.to_string(),
            blinding_key: None,
            timeout_block_height: 1,
            server_public_key: "k".to_string(),
            user_lockup_address: "u".to_string(),
            server_lockup_address: Some("srv".to_string()),
            amount: 5000,
            swap_id: "swap-9".to_string(),
            preimage: Some("pre".to_string()),
        },
    }
}

fn liquid_address() -> String {
    let pk = elements::bitcoin::PublicKey::from_str(
        "0279be667ef9dcbbac55a06295ce870b07029bfcdb2dce28d959f2815b16f81798",
    )
    .unwrap();
    elements::Address::p2wpkh(&pk, None, &elements::AddressParams::LIQUID).to_string()
}

const BTC_ADDRESS: &str = "bc1qw508d6qejxtdg4y5r3zarvary0c5xw7kv8f3t4";

fn logs(app: &SwapRescueApp) -> Vec<String> {
    app.logs().clone()
}

fn ready_app(cfg: Config, address: &str) -> SwapRescueApp {
    let mut app = SwapRescueApp::new();
    app.update(Message::ConfigLoaded(Ok(cfg)));
    app.update(Message::MnemonicWordChanged(0, MNEMONIC_12.to_string()));
    app.update(Message::ReturnAddressChanged(address.to_string()));
    app
}

#[test]
fn new_window() {
    let app = SwapRescueApp::new();
    assert_eq!(app.title(), "Swap Rescue Tool");
    assert_eq!(app.state(), AppState::Idle);
    assert!(app.config().is_none());
    assert!(app.logs().is_empty());
    assert_eq!(app.word_count(), 12);
    assert!(app.mnemonic_visible());
    assert!(app.mnemonic_expanded());
    assert!(app.auto_increment());
    assert_eq!(app.swap_index(), 0);
    assert_eq!(app.max_swap_index(), 210);
    assert_eq!(app.max_swap_index_input(), "210");
    assert_eq!(app.focused_word(), None);
    for i in 0..24 {
        assert_eq!(app.word(i), "");
        assert!(!app.is_locked(i));
    }
    let d = SwapRescueApp::default();
    assert_eq!(d.word_count(), 12);
}

#[test]
fn load_config_opens_picker() {
    let mut app = SwapRescueApp::new();
    assert!(matches!(app.update(Message::LoadConfig), Effect::PickConfigFile));
    assert_eq!(logs(&app), vec!["Opening file picker..."]);
}

#[test]
fn config_loaded_logs_summary() {
    let mut app = SwapRescueApp::new();
    let e = app.update(Message::ConfigLoaded(Ok(config("claim", "chain", "bitcoin", "liquid"))));
    assert!(matches!(e, Effect::Nothing));
    assert_eq!(app.state(), AppState::ConfigLoaded);
    assert!(app.config().is_some());
    assert_eq!(
        logs(&app),
        vec![
            "✓ Provider config loaded",
            "  Swap ID: swap-9",
            "  Type: CLAIM",
            "  Direction: bitcoin → liquid",
        ]
    );
    let mut app = SwapRescueApp::new();
    app.update(Message::ConfigLoaded(Ok(config("refund", "submarine", "bitcoin", ""))));
    assert_eq!(logs(&app)[3], "  Direction: bitcoin → (n/a)");
}

#[test]
fn config_error_is_reported() {
    let mut app = SwapRescueApp::new();
    app.update(Message::ConfigLoaded(Err("No file selected".to_string())));
    assert_eq!(app.state(), AppState::Error);
    assert_eq!(app.error_message().as_deref(), Some("No file selected"));
    assert_eq!(logs(&app), vec!["✗ Error loading config: No file selected"]);
}

#[test]
fn typed_word_locks_and_moves_focus() {
    let mut app = SwapRescueApp::new();
    let e = app.update(Message::MnemonicWordChanged(0, "ABANDON".to_string()));
    assert!(matches!(e, Effect::FocusWord(1)));
    assert_eq!(app.word(0), "abandon");
    assert!(app.is_locked(0));
    assert_eq!(app.focused_word(), Some(1));

    let e = app.update(Message::MnemonicWordChanged(1, "aba".to_string()));
    assert!(matches!(e, Effect::Nothing));
    assert_eq!(app.word(1), "aba");
    assert!(!app.is_locked(1));
    assert_eq!(app.focused_word(), Some(1));

    let e = app.update(Message::MnemonicWordChanged(0, "zoo".to_string()));
    assert!(matches!(e, Effect::Nothing));
    assert_eq!(app.word(0), "abandon");

    let e = app.update(Message::MnemonicWordChanged(12, "zoo".to_string()));
    assert!(matches!(e, Effect::Nothing));
    assert_eq!(app.word(12), "");
}

#[test]
fn last_word_folds_the_block() {
    let mut app = SwapRescueApp::new();
    for i in 0..11 {
        app.update(Message::MnemonicWordChanged(i, "abandon".to_string()));
    }
    assert!(app.mnemonic_expanded());
    let e = app.update(Message::MnemonicWordChanged(11, "about".to_string()));
    assert!(matches!(e, Effect::Nothing));
    assert_eq!(app.focused_word(), None);
    assert!(!app.mnemonic_expanded());
}

#[test]
fn paste_fills_boxes() {
    let mut app = SwapRescueApp::new();
    let e = app.update(Message::MnemonicWordChanged(0, MNEMONIC_12.to_uppercase()));
    assert!(matches!(e, Effect::FocusWord(11)));
    for i in 0..11 {
        assert_eq!(app.word(i), "abandon");
        assert!(app.is_locked(i));
    }
    assert_eq!(app.word(11), "about");
    assert!(app.is_locked(11));
    assert_eq!(app.focused_word(), Some(11));
    assert!(!app.mnemonic_expanded());
}

#[test]
fn relocking_an_earlier_word_folds_the_block() {
    let mut app = SwapRescueApp::new();
    app.update(Message::MnemonicWordChanged(0, MNEMONIC_12.to_string()));
    assert!(!app.mnemonic_expanded());
    let e = app.update(Message::MnemonicWordEdit(1));
    assert!(matches!(e, Effect::FocusWord(1)));
    assert!(app.mnemonic_expanded());
    assert!(!app.is_locked(1));
    let e = app.update(Message::MnemonicWordPicked(1, "abandon".to_string()));
    assert!(matches!(e, Effect::FocusWord(2)));
    assert!(app.is_locked(1));
    assert!(!app.mnemonic_expanded());

    app.update(Message::MnemonicWordEdit(4));
    assert!(app.mnemonic_expanded());
    app.update(Message::MnemonicWordChanged(4, "Abandon".to_string()));
    assert!(app.is_locked(4));
    assert!(!app.mnemonic_expanded());
}

#[test]
fn paste_of_24_words_switches_to_24() {
    let mut app = SwapRescueApp::new();
    let mut words = vec!["zoo"; 23];
    words.push("notaword");
    let e = app.update(Message::MnemonicWordChanged(0, words.join("  ")));
    assert!(matches!(e, Effect::FocusWord(23)));
    assert_eq!(app.word_count(), 24);
    assert!(app.is_locked(22));
    assert_eq!(app.word(23), "notaword");
    assert!(!app.is_locked(23));
}

#[test]
fn paste_past_the_end_is_cut() {
    let mut app = SwapRescueApp::new();
    let e = app.update(Message::MnemonicWordChanged(10, "zoo able cat dog".to_string()));
    assert!(matches!(e, Effect::FocusWord(11)));
    assert_eq!(app.word(10), "zoo");
    assert_eq!(app.word(11), "able");
    assert_eq!(app.word(12), "");
    let e = app.update(Message::MnemonicWordEdit(11));
    assert!(matches!(e, Effect::FocusWord(11)));
    let e = app.update(Message::MnemonicWordChanged(11, "   ".to_string()));
    assert!(matches!(e, Effect::FocusWord(11)));
    assert_eq!(app.word(11), "able");
}

#[test]
fn pick_and_edit() {
    let mut app = SwapRescueApp::new();
    let e = app.update(Message::MnemonicWordPicked(3, "zoo".to_string()));
    assert!(matches!(e, Effect::FocusWord(4)));
    assert!(app.is_locked(3));
    let e = app.update(Message::MnemonicWordPicked(3, "able".to_string()));
    assert!(matches!(e, Effect::Nothing));
    assert_eq!(app.word(3), "zoo");
    app.update(Message::SetMnemonicExpanded(false));
    let e = app.update(Message::MnemonicWordEdit(3));
    assert!(matches!(e, Effect::FocusWord(3)));
    assert!(!app.is_locked(3));
    assert!(app.mnemonic_expanded());
    assert_eq!(app.focused_word(), Some(3));
    assert!(matches!(app.update(Message::MnemonicWordEdit(20)), Effect::Nothing));
}

#[test]
fn word_count_switch_clears_extra_boxes() {
    let mut app = SwapRescueApp::new();
    app.update(Message::SetWordCount(24));
    assert_eq!(app.word_count(), 24);
    app.update(Message::MnemonicWordChanged(20, "zoo".to_string()));
    assert!(app.is_locked(20));
    app.update(Message::MnemonicWordChanged(2, "zoo".to_string()));
    app.update(Message::SetWordCount(12));
    assert_eq!(app.word_count(), 12);
    assert_eq!(app.word(20), "");
    assert!(!app.is_locked(20));
    assert_eq!(app.word(2), "zoo");
    app.update(Message::SetWordCount(18));
    assert_eq!(app.word_count(), 12);
}

#[test]
fn visibility_passphrase_address() {
    let mut app = SwapRescueApp::new();
    app.update(Message::ToggleMnemonicVisibility);
    assert!(!app.mnemonic_visible());
    app.update(Message::PassphraseChanged("secret".to_string()));
    assert_eq!(app.passphrase(), "secret");
    app.update(Message::ReturnAddressChanged(" addr ".to_string()));
    assert_eq!(app.return_address_input(), " addr ");
}

#[test]
fn swap_index_inputs() {
    let mut app = SwapRescueApp::new();
    app.update(Message::SwapIndexChanged("17".to_string()));
    assert_eq!(app.swap_index(), 17);
    app.update(Message::SwapIndexChanged("x".to_string()));
    assert_eq!(app.swap_index(), 17);
    app.update(Message::SwapIndexChanged("  ".to_string()));
    assert_eq!(app.swap_index(), 0);
    app.update(Message::MaxSwapIndexChanged("50".to_string()));
    assert_eq!(app.max_swap_index(), 50);
    app.update(Message::MaxSwapIndexChanged("5o".to_string()));
    assert_eq!(app.max_swap_index(), 50);
    assert_eq!(app.max_swap_index_input(), "5o");
    app.update(Message::MaxSwapIndexChanged("".to_string()));
    assert_eq!(app.max_swap_index(), 210);
}

#[test]
fn auto_increment_toggle() {
    let mut app = SwapRescueApp::new();
    app.update(Message::ToggleAutoIncrement(false));
    app.update(Message::SwapIndexChanged("9".to_string()));
    assert_eq!(app.swap_index(), 9);
    app.update(Message::ToggleAutoIncrement(true));
    assert_eq!(app.swap_index(), 0);
    assert_eq!(
        logs(&app),
        vec!["Auto-increment disabled", "Auto-increment enabled (starting at 0)"]
    );
}

#[test]
fn log_copy_save_clear() {
    let mut app = SwapRescueApp::new();
    assert!(matches!(app.update(Message::CopyLogs), Effect::Nothing));
    assert!(matches!(app.update(Message::SaveLogs), Effect::Nothing));
    app.update(Message::LoadConfig);
    app.update(Message::LogsSaved(Err("Save cancelled".to_string())));
    match app.update(Message::SaveLogs) {
        Effect::SaveLogs(t) => assert_eq!(t, "Opening file picker...\n✗ Save failed: Save cancelled"),
        other => panic!("unexpected effect {:?}", other),
    }
    match app.update(Message::CopyLogs) {
        Effect::WriteClipboard(t) => {
            assert_eq!(t, "Opening file picker...\n✗ Save failed: Save cancelled")
        }
        other => panic!("unexpected effect {:?}", other),
    }
    assert_eq!(logs(&app).last().unwrap(), "✓ Logs copied to clipboard");
    app.update(Message::LogsSaved(Ok("/tmp/x.txt".to_string())));
    assert_eq!(logs(&app).last().unwrap(), "✓ Logs saved to /tmp/x.txt");
    app.update(Message::ClearLogs);
    assert!(app.logs().is_empty());
}

#[test]
fn execute_without_config_does_nothing() {
    let mut app = SwapRescueApp::new();
    assert!(matches!(app.update(Message::ExecuteRescue), Effect::Nothing));
    assert_eq!(app.state(), AppState::Idle);
    assert!(app.logs().is_empty());
}

#[test]
fn execute_rejects_incomplete_mnemonic() {
    let mut app = SwapRescueApp::new();
    app.update(Message::ConfigLoaded(Ok(config("claim", "chain", "bitcoin", "liquid"))));
    app.update(Message::MnemonicWordChanged(0, "zoo".to_string()));
    assert!(matches!(app.update(Message::ExecuteRescue), Effect::Nothing));
    assert_eq!(app.state(), AppState::Error);
    assert_eq!(app.error_message().as_deref(), Some("Mnemonic must be exactly 12 words"));
    assert_eq!(logs(&app).last().unwrap(), "✗ Mnemonic must be exactly 12 words");
}

#[test]
fn execute_rejects_unlisted_word_and_bad_address() {
    let mut app = ready_app(config("claim", "chain", "bitcoin", "liquid"), "");
    app.update(Message::MnemonicWordEdit(4));
    app.update(Message::ExecuteRescue);
    assert_eq!(
        app.error_message().as_deref(),
        Some("One or more mnemonic words are not in the BIP39 word list")
    );
    app.update(Message::MnemonicWordPicked(4, "abandon".to_string()));
    app.update(Message::ExecuteRescue);
    assert_eq!(app.error_message().as_deref(), Some("Return address is required"));
    app.update(Message::ReturnAddressChanged(BTC_ADDRESS.to_string()));
    app.update(Message::ExecuteRescue);
    assert_eq!(
        app.error_message().as_deref(),
        Some("Return address is not a valid Liquid (LBTC) address")
    );
}

#[test]
fn execute_starts_rescue() {
    let addr = liquid_address();
    let mut app = ready_app(config("claim", "chain", "bitcoin", "liquid"), &format!(" {} ", addr));
    app.update(Message::PassphraseChanged("pw".to_string()));
    app.update(Message::ToggleAutoIncrement(false));
    app.update(Message::SwapIndexChanged("3".to_string()));
    let before = logs(&app).len();
    match app.update(Message::ExecuteRescue) {
        Effect::RunRescue(req) => {
            assert_eq!(req.mnemonic, MNEMONIC_12);
            assert_eq!(req.passphrase, "pw");
            assert_eq!(req.return_address, addr);
            assert_eq!(req.swap_index, 3);
            assert_eq!(req.config.provider_input.swap_id, "swap-9");
        }
        other => panic!("unexpected effect {:?}", other),
    }
    assert_eq!(app.state(), AppState::Executing);
    assert_eq!(
        logs(&app)[before..].to_vec(),
        vec![
            "Starting rescue operation...",
            "Using swap index: 3",
            "Connecting to Electrum servers...",
            "Building swap script...",
        ]
    );
}

#[test]
fn refund_checks_from_network_address() {
    let mut app = ready_app(config("refund", "chain", "bitcoin", "liquid"), BTC_ADDRESS);
    assert!(matches!(app.update(Message::ExecuteRescue), Effect::RunRescue(_)));
}

#[test]
fn failed_rescue_retries_until_max() {
    let mut app = SwapRescueApp::new();
    app.update(Message::MaxSwapIndexChanged("2".to_string()));
    let e = app.update(Message::RescueCompleted(Err("no lockup".to_string())));
    assert!(matches!(e, Effect::RetryRescue));
    assert_eq!(app.swap_index(), 1);
    assert_eq!(
        logs(&app),
        vec!["✗ Error: no lockup", "↻ Auto-increment: retrying with swap index 1 (max 2)"]
    );
    assert!(app.error_message().is_none());
    assert!(matches!(
        app.update(Message::RescueCompleted(Err("no lockup".to_string()))),
        Effect::RetryRescue
    ));
    assert_eq!(app.swap_index(), 2);
    let e = app.update(Message::RescueCompleted(Err("no lockup".to_string())));
    assert!(matches!(e, Effect::Nothing));
    assert_eq!(app.swap_index(), 2);
    assert_eq!(app.state(), AppState::Error);
    assert_eq!(logs(&app).last().unwrap(), "✗ Auto-increment stopped: reached max index 2");
    assert_eq!(app.error_message().as_deref(), Some("no lockup"));
}

#[test]
fn failed_rescue_without_auto_increment() {
    let mut app = SwapRescueApp::new();
    app.update(Message::ToggleAutoIncrement(false));
    let e = app.update(Message::RescueCompleted(Err("boom".to_string())));
    assert!(matches!(e, Effect::Nothing));
    assert_eq!(app.state(), AppState::Error);
    assert_eq!(logs(&app).last().unwrap(), "✗ Error: boom");
}

#[test]
fn built_rescue_is_summarised() {
    let mut app = SwapRescueApp::new();
    let summary = RescueSummary {
        amount: 5000,
        return_address: "bc1q".to_string(),
        network: "Bitcoin(Bitcoin)".to_string(),
        swap_id: "swap-9".to_string(),
        rescue_type: "chain refund".to_string(),
    };
    app.update(Message::RescueCompleted(Ok(summary)));
    assert_eq!(app.state(), AppState::AwaitingConfirmation);
    assert_eq!(
        logs(&app),
        vec![
            "✓ Transaction constructed successfully",
            "",
            "=== Transaction Summary ===",
            "Amount: 5000 sats",
            "Return Address: bc1q",
            "Network: Bitcoin(Bitcoin)",
            "Swap ID: swap-9",
            "Type: CHAIN REFUND",
            "",
            "⚠ Please review the details above carefully",
        ]
    );
}

#[test]
fn broadcast_flow() {
    let mut app = SwapRescueApp::new();
    assert!(matches!(app.update(Message::ConfirmBroadcast), Effect::Broadcast));
    assert_eq!(app.state(), AppState::Broadcasting);
    app.update(Message::BroadcastCompleted(Ok("Transaction broadcast successfully!".to_string())));
    assert_eq!(app.state(), AppState::Completed);
    assert_eq!(
        logs(&app),
        vec![
            "",
            "Broadcasting transaction to network...",
            "✓ Transaction broadcast successfully!",
            "Transaction broadcast successfully!",
            "",
            "=== COMPLETED ===",
        ]
    );
    assert!(matches!(app.update(Message::CancelBroadcast), Effect::DiscardTransaction));
    assert_eq!(app.state(), AppState::ConfigLoaded);
    assert_eq!(logs(&app).last().unwrap(), "✗ Broadcast cancelled by user");
    app.update(Message::BroadcastCompleted(Err("rejected".to_string())));
    assert_eq!(app.state(), AppState::Error);
    assert_eq!(logs(&app).last().unwrap(), "✗ Broadcast error: rejected");
}

#[test]
fn queries_on_a_ready_window() {
    let addr = liquid_address();
    let app = ready_app(config("claim", "chain", "bitcoin", "liquid"), &addr);
    assert!(app.all_words_locked());
    assert!(app.mnemonic_ready());
    assert!(app.can_execute_rescue());
    assert!(app.execute_blocker_reason().is_none());
    assert_eq!(app.collected_mnemonic(), MNEMONIC_12);
    let (chain, label) = app.expected_return_chain().unwrap();
    assert_eq!(format!("{:?}", chain), "Liquid(Liquid)");
    assert_eq!(label, "Liquid (LBTC)");
    assert!(app.validate_user_input(MNEMONIC_12, &addr).is_ok());
}

#[test]
fn blocker_reasons() {
    let mut app = SwapRescueApp::new();
    assert_eq!(app.execute_blocker_reason().as_deref(), Some("Load provider config to begin"));
    assert!(!app.can_execute_rescue());
    app.update(Message::ConfigLoaded(Ok(config("refund", "submarine", "liquid", ""))));
    app.update(Message::MnemonicWordChanged(0, "zoo".to_string()));
    assert_eq!(
        app.execute_blocker_reason().as_deref(),
        Some("Mnemonic incomplete (11 of 12 words remaining)")
    );
    app.update(Message::MnemonicWordChanged(0, MNEMONIC_12.to_string()));
    let mut app = ready_app(config("refund", "submarine", "liquid", ""), "");
    assert_eq!(app.execute_blocker_reason().as_deref(), Some("Enter a return address"));
    app.update(Message::ReturnAddressChanged(BTC_ADDRESS.to_string()));
    assert_eq!(
        app.execute_blocker_reason().as_deref(),
        Some("Return address must be a valid Liquid (LBTC) address")
    );
    let mut app = ready_app(config("refund", "submarine", "dogecoin", ""), BTC_ADDRESS);
    assert_eq!(
        app.execute_blocker_reason().as_deref(),
        Some("Could not determine expected return network")
    );
    assert!(!app.can_execute_rescue());
    app.update(Message::ExecuteRescue);
    assert_eq!(app.state(), AppState::Executing);
}
