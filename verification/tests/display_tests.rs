use swap_rescue::config::{Config, LeafConfig, ProviderInput};
use swap_rescue::gui::app::{Message, ReturnAddressState, SwapRescueApp};
use swap_rescue::gui::display::{
    collapsed_banner, locked_word_text, masked_word, mnemonic_grid_rows, provider_details,
    return_address_feedback, return_address_label, shows_collapsed_mnemonic, suggestion_row,
    swap_index_status, to_network_text, word_number_label, action_row, ActionRow, SuggestionRow,
};

fn config(to: &str) -> Config {
    Config {
        provider_input: ProviderInput {
            rescue_type: "claim".to_string(),
            swap_type: "chain".to_string(),
            claim_leaf: LeafConfig { output: "c".to_string(), version: 196 },
            refund_leaf: LeafConfig { output: "r".to_string(), version: 196 },
            from_network_str: "liquid".to_string(),
            to_network_str: to.to_string(),
            blinding_key: None,
            timeout_block_height: 1,
            server_public_key: "k".to_string(),
            user_lockup_address: "u".to_string(),
            server_lockup_address: Some("s".to_string()),
            amount: 21000,
            swap_id: "abc".to_string(),
            preimage: Some("p".to_string()),
        },
    }
}

#[test]
fn suggestions_follow_the_focused_box() {
    let mut app = SwapRescueApp::new();
    assert!(matches!(suggestion_row(&app), SuggestionRow::Hidden));
    app.update(Message::MnemonicWordChanged(2, "ZO".to_string()));
    match suggestion_row(&app) {
        SuggestionRow::Words(i, ws) => {
            assert_eq!(i, 2);
            assert_eq!(ws, vec!["zone", "zoo"]);
        }
        other => panic!("unexpected row {:?}", other),
    }
    app.update(Message::MnemonicWordChanged(2, "qx".to_string()));
    match suggestion_row(&app) {
        SuggestionRow::NoMatch(p) => assert_eq!(p, "qx"),
        other => panic!("unexpected row {:?}", other),
    }
    app.update(Message::MnemonicWordChanged(2, "".to_string()));
    assert!(matches!(suggestion_row(&app), SuggestionRow::Hidden));
    app.update(Message::MnemonicWordChanged(2, "zoo".to_string()));
    app.update(Message::MnemonicWordEdit(2));
    app.update(Message::MnemonicWordPicked(2, "zoo".to_string()));
    assert!(matches!(suggestion_row(&app), SuggestionRow::Hidden));
}

#[test]
fn hidden_words_show_bullets() {
    assert_eq!(masked_word("zoo"), "•••");
    assert_eq!(masked_word("at"), "•••");
    assert_eq!(masked_word("abandon"), "•••••••");
    assert_eq!(masked_word(""), "•••");
    let mut app = SwapRescueApp::new();
    app.update(Message::MnemonicWordChanged(0, "ability".to_string()));
    assert_eq!(locked_word_text(&app, 0), "ability");
    app.update(Message::ToggleMnemonicVisibility);
    assert_eq!(locked_word_text(&app, 0), "•••••••");
}

#[test]
fn folded_mnemonic_banner() {
    let mut app = SwapRescueApp::new();
    assert!(!shows_collapsed_mnemonic(&app));
    app.update(Message::MnemonicWordChanged(
        0,
        "zoo zoo zoo zoo zoo zoo zoo zoo zoo zoo zoo zoo".to_string(),
    ));
    assert!(shows_collapsed_mnemonic(&app));
    app.update(Message::SetMnemonicExpanded(true));
    assert!(!shows_collapsed_mnemonic(&app));
    app.update(Message::SetMnemonicExpanded(false));
    assert!(shows_collapsed_mnemonic(&app));
    assert_eq!(collapsed_banner(&app), "✓ Mnemonic entered (12 words)");
}

#[test]
fn grid_and_numbers() {
    assert_eq!(mnemonic_grid_rows(12), 4);
    assert_eq!(mnemonic_grid_rows(24), 8);
    assert_eq!(mnemonic_grid_rows(13), 5);
    assert_eq!(word_number_label(0), " 1.");
    assert_eq!(word_number_label(8), " 9.");
    assert_eq!(word_number_label(9), "10.");
    assert_eq!(word_number_label(23), "24.");
}

#[test]
fn provider_rows() {
    let rows = provider_details(&config("bitcoin"));
    let rows: Vec<(&str, String)> = rows.into_iter().collect();
    assert_eq!(
        rows,
        vec![
            ("Swap ID", "abc".to_string()),
            ("Swap Type", "CHAIN".to_string()),
            ("Rescue Type", "CLAIM".to_string()),
            ("Direction", "liquid → bitcoin".to_string()),
            ("Amount", "21000 sats".to_string()),
        ]
    );
    assert_eq!(to_network_text(""), "(n/a)");
    assert_eq!(to_network_text("liquid"), "liquid");
}

#[test]
fn return_address_texts() {
    let mut app = SwapRescueApp::new();
    assert_eq!(return_address_label(&app), "Return address");
    assert!(matches!(app.return_address_state(), ReturnAddressState::Empty));
    assert_eq!(
        return_address_feedback(&app),
        "Claim: enter to_network address · Refund: enter from_network address"
    );
    app.update(Message::ReturnAddressChanged("bc1q".to_string()));
    assert!(matches!(app.return_address_state(), ReturnAddressState::Unknown));
    assert_eq!(
        return_address_feedback(&app),
        "Could not determine expected network from config"
    );
    app.update(Message::ConfigLoaded(Ok(config("bitcoin"))));
    assert_eq!(return_address_label(&app), "Return address (expected: Bitcoin (BTC))");
    assert_eq!(
        return_address_feedback(&app),
        "✗ Not a valid Bitcoin (BTC) address — expected Bitcoin (BTC)"
    );
    app.update(Message::ReturnAddressChanged(
        "bc1qw508d6qejxtdg4y5r3zarvary0c5xw7kv8f3t4".to_string(),
    ));
    assert!(matches!(app.return_address_state(), ReturnAddressState::Valid("Bitcoin (BTC)")));
    assert_eq!(return_address_feedback(&app), "✓ Valid Bitcoin (BTC) address");
}

#[test]
fn swap_index_line() {
    let mut app = SwapRescueApp::new();
    assert_eq!(swap_index_status(&app), "Currently trying: 0 (will retry up to 210 on failure)");
    app.update(Message::RescueCompleted(Err("x".to_string())));
    assert_eq!(swap_index_status(&app), "Currently trying: 1 (will retry up to 210 on failure)");
}

#[test]
fn action_area_by_state() {
    let mut app = SwapRescueApp::new();
    assert!(matches!(action_row(&app), ActionRow::Empty));
    app.update(Message::ConfigLoaded(Ok(config("bitcoin"))));
    match action_row(&app) {
        ActionRow::Execute { enabled, blocker } => {
            assert!(!enabled);
            assert_eq!(blocker, Some("Mnemonic incomplete (12 of 12 words remaining)".to_string()));
        }
        other => panic!("unexpected action row {:?}", other),
    }
}
