use swap_rescue::words::{bip39_suggestions, is_bip39_word, BIP39_WORD_COUNT, MAX_SUGGESTIONS};

#[test]
fn bip39_membership() {
    assert!(is_bip39_word("abandon"));
    assert!(is_bip39_word("zoo"));
    assert!(is_bip39_word("ability"));
    assert!(!is_bip39_word("bitcoin"));
    assert!(!is_bip39_word("Abandon"));
    assert!(!is_bip39_word(""));
    assert!(!is_bip39_word("abandon "));
    assert_eq!(BIP39_WORD_COUNT, 2048);
}

#[test]
fn suggestions_are_first_six_with_prefix() {
    assert_eq!(
        bip39_suggestions("ab"),
        vec!["abandon", "ability", "able", "about", "above", "absent"]
    );
    assert_eq!(bip39_suggestions("zoo"), vec!["zoo"]);
    assert!(bip39_suggestions("zz").is_empty());
    assert_eq!(bip39_suggestions("").len(), MAX_SUGGESTIONS);
}
