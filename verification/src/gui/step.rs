//! How each event changes the abstract state of the rescue window, and the
//! outside work it asks for.

use vstd::prelude::*;
use crate::chain::{address_for_chain_spec, chain_label_spec, chain_named, Chain};
use crate::config::Config;
use crate::gui::app::{AppModel, AppState, DEFAULT_MAX_SWAP_INDEX, Effect, MAX_WORDS, Message};
use crate::rescue::RescueSummary;
use crate::text::{
    decimal, has_white_space, is_blank, join, lowercase, parse_u64_spec, tokens, trim, uppercase,
};
use crate::words::is_bip39_word_spec;

verus! {

/// Every word in use is locked.
pub open spec fn all_locked(m: AppModel) -> bool {
    forall|i: int| 0 <= i < m.word_count ==> #[trigger] m.locked[i]
}

/// Every word in use is locked and not empty.
pub open spec fn mnemonic_ready_spec(m: AppModel) -> bool {
    &&& all_locked(m)
    &&& forall|i: int| 0 <= i < m.word_count ==> (#[trigger] m.words[i]).len() > 0
}

/// The mnemonic the words in use spell: their whitespace-separated parts,
/// joined by single spaces.
pub open spec fn collected_mnemonic_spec(m: AppModel) -> Seq<char> {
    let trimmed = m.words.take(m.word_count as int).map_values(|w: Seq<char>| trim(w));
    join(tokens(join(trimmed, " "@)), " "@)
}

/// The network the return address must belong to: `to_network` for claims
/// of chain swaps, `from_network` for every other rescue.
pub open spec fn expected_return_network_spec(config: Option<Config>) -> Option<Chain> {
    match config {
        None => None,
        Some(c) => {
            let p = c.provider_input;
            let rt = lowercase(p.rescue_type@);
            let st = lowercase(p.swap_type@);
            let net = if st == "chain"@ && rt == "claim"@ {
                p.to_network_str@
            } else {
                p.from_network_str@
            };
            chain_named(lowercase(net))
        },
    }
}

/// The first problem with what the user entered, as its message: the
/// mnemonic and the (trimmed) return address; `None` when there is none.
pub open spec fn user_input_problem(m: AppModel, mnemonic: Seq<char>, return_address: Seq<char>) -> Option<Seq<char>> {
    if tokens(mnemonic).len() != m.word_count {
        Some("Mnemonic must be exactly "@ + decimal(m.word_count as nat) + " words"@)
    } else if !all_locked(m) {
        Some("One or more mnemonic words are not in the BIP39 word list"@)
    } else if return_address.len() == 0 {
        Some("Return address is required"@)
    } else {
        match expected_return_network_spec(m.config) {
            Some(c) => if !address_for_chain_spec(return_address, c) {
                Some("Return address is not a valid "@ + chain_label_spec(c) + " address"@)
            } else {
                None
            },
            None => None,
        }
    }
}

/// How a missing `to_network` is shown.
pub open spec fn to_network_display(to: Seq<char>) -> Seq<char> {
    if to.len() == 0 {
        "(n/a)"@
    } else {
        to
    }
}

/// The log lines that report a loaded provider config.
pub open spec fn config_loaded_lines(c: Config) -> Seq<Seq<char>> {
    let p = c.provider_input;
    seq![
        "✓ Provider config loaded"@,
        "  Swap ID: "@ + p.swap_id@,
        "  Type: "@ + uppercase(p.rescue_type@),
        "  Direction: "@ + p.from_network_str@ + " → "@ + to_network_display(p.to_network_str@),
    ]
}

pub open spec fn after_config_loaded(m: AppModel, r: Result<Config, String>) -> AppModel {
    match r {
        Ok(c) => AppModel {
            logs: m.logs + config_loaded_lines(c),
            config: Some(c),
            state: AppState::ConfigLoaded,
            error_message: None,
            ..m
        },
        Err(e) => AppModel {
            logs: m.logs.push("✗ Error loading config: "@ + e@),
            error_message: Some(e@),
            state: AppState::Error,
            ..m
        },
    }
}

/// The words a paste holds, lowercased.
pub open spec fn pasted_words(raw: Seq<char>) -> Seq<Seq<char>> {
    tokens(raw).map_values(|t: Seq<char>| lowercase(t))
}

/// The number of words in use after a paste of `n` words: a paste of 24 or
/// more switches to 24 words.
pub open spec fn word_count_after_paste(m: AppModel, n: nat) -> usize {
    if n >= 24 && m.word_count < 24 {
        24
    } else {
        m.word_count
    }
}

/// How many pasted words land in boxes, starting at box `idx`.
pub open spec fn pasted_count(m: AppModel, idx: usize, raw: Seq<char>) -> nat {
    let n = pasted_words(raw).len();
    let room = (word_count_after_paste(m, n) - idx) as nat;
    if n <= room {
        n
    } else {
        room
    }
}

/// The box that gets the focus after a paste at `idx`.
pub open spec fn focus_after_paste(m: AppModel, idx: usize, raw: Seq<char>) -> usize {
    let wc = word_count_after_paste(m, pasted_words(raw).len());
    let k = pasted_count(m, idx, raw);
    let last = if k > 0 {
        idx + k - 1
    } else {
        idx as int
    };
    if last + 1 < wc - 1 {
        (last + 1) as usize
    } else {
        (wc - 1) as usize
    }
}

/// Text with whitespace typed into box `idx` fills that box and the ones
/// after it with its words, locking each one that is a BIP39 word.
pub open spec fn after_paste(m: AppModel, idx: usize, raw: Seq<char>) -> AppModel {
    let ws = pasted_words(raw);
    let k = pasted_count(m, idx, raw);
    fold_if_complete(AppModel {
        word_count: word_count_after_paste(m, ws.len()),
        words: Seq::new(
            MAX_WORDS as nat,
            |i: int|
                if idx <= i < idx + k {
                    ws[i - idx]
                } else {
                    m.words[i]
                },
        ),
        locked: Seq::new(
            MAX_WORDS as nat,
            |i: int|
                if idx <= i < idx + k {
                    is_bip39_word_spec(ws[i - idx])
                } else {
                    m.locked[i]
                },
        ),
        focused_word: Some(focus_after_paste(m, idx, raw)),
        ..m
    })
}

/// Once every word in use is locked, the mnemonic block folds to its banner.
pub open spec fn fold_if_complete(m: AppModel) -> AppModel {
    AppModel {
        expanded: if all_locked(m) {
            false
        } else {
            m.expanded
        },
        ..m
    }
}

/// After word `idx` was locked: the focus moves to the next box, or, past
/// the last box, leaves the boxes; the mnemonic block folds once every word
/// is locked.
pub open spec fn after_lock(m: AppModel, idx: usize) -> AppModel {
    fold_if_complete(
        if idx + 1 < m.word_count {
            AppModel { focused_word: Some((idx + 1) as usize), ..m }
        } else {
            AppModel { focused_word: None, ..m }
        },
    )
}

/// A typed word (no whitespace) lands lowercased in box `idx`; a BIP39 word
/// locks it.
pub open spec fn after_typed(m: AppModel, idx: usize, raw: Seq<char>) -> AppModel {
    let value = lowercase(raw);
    let m1 = AppModel { words: m.words.update(idx as int, value), focused_word: Some(idx), ..m };
    if value.len() > 0 && is_bip39_word_spec(value) {
        after_lock(AppModel { locked: m1.locked.update(idx as int, true), ..m1 }, idx)
    } else {
        m1
    }
}

/// Box `idx` accepts input: it is in use and not locked.
pub open spec fn box_open(m: AppModel, idx: usize) -> bool {
    idx < m.word_count && !m.locked[idx as int]
}

pub open spec fn after_word_changed(m: AppModel, idx: usize, raw: Seq<char>) -> AppModel {
    if !box_open(m, idx) {
        m
    } else if has_white_space(raw) {
        after_paste(m, idx, raw)
    } else {
        after_typed(m, idx, raw)
    }
}

pub open spec fn after_word_picked(m: AppModel, idx: usize, word: Seq<char>) -> AppModel {
    if !box_open(m, idx) {
        m
    } else {
        after_lock(
            AppModel {
                words: m.words.update(idx as int, word),
                locked: m.locked.update(idx as int, true),
                ..m
            },
            idx,
        )
    }
}

pub open spec fn after_word_edit(m: AppModel, idx: usize) -> AppModel {
    if idx < m.word_count {
        AppModel {
            locked: m.locked.update(idx as int, false),
            focused_word: Some(idx),
            expanded: true,
            ..m
        }
    } else {
        m
    }
}

/// Switching to 12 or 24 words clears and unlocks the boxes past the count.
pub open spec fn after_set_word_count(m: AppModel, count: usize) -> AppModel {
    if count == 12 || count == 24 {
        AppModel {
            word_count: count,
            words: Seq::new(
                MAX_WORDS as nat,
                |i: int|
                    if i >= count {
                        Seq::empty()
                    } else {
                        m.words[i]
                    },
            ),
            locked: Seq::new(
                MAX_WORDS as nat,
                |i: int|
                    if i >= count {
                        false
                    } else {
                        m.locked[i]
                    },
            ),
            ..m
        }
    } else {
        m
    }
}

/// A number typed into an index box: blank means `blank_value`, a number
/// replaces `current`, anything else keeps it.
pub open spec fn typed_index(v: Seq<char>, blank_value: u64, current: u64) -> u64 {
    if is_blank(v) {
        blank_value
    } else {
        match parse_u64_spec(v) {
            Some(x) => x,
            None => current,
        }
    }
}

pub open spec fn after_toggle_auto(m: AppModel, enabled: bool) -> AppModel {
    let line = if enabled {
        "Auto-increment enabled (starting at 0)"@
    } else {
        "Auto-increment disabled"@
    };
    with_log(
        AppModel {
            auto_increment: enabled,
            swap_index: if enabled {
                0
            } else {
                m.swap_index
            },
            ..m
        },
        line,
    )
}

/// `m` with `line` added at the end of the log.
pub open spec fn with_log(m: AppModel, line: Seq<char>) -> AppModel {
    AppModel { logs: m.logs.push(line), ..m }
}

/// The log, one entry per line.
pub open spec fn log_text(m: AppModel) -> Seq<char> {
    join(m.logs, "\n"@)
}

pub open spec fn after_execute(m: AppModel) -> AppModel {
    match m.config {
        None => m,
        Some(c) => match user_input_problem(m, collected_mnemonic_spec(m), trim(m.return_address)) {
            Some(e) => AppModel {
                logs: m.logs.push("✗ "@ + e),
                error_message: Some(e),
                state: AppState::Error,
                ..m
            },
            None => AppModel {
                state: AppState::Executing,
                logs: m.logs + seq![
                    "Starting rescue operation..."@,
                    "Using swap index: "@ + decimal(m.swap_index as nat),
                    "Connecting to Electrum servers..."@,
                    "Building swap script..."@,
                ],
                ..m
            },
        },
    }
}

/// The log lines that show a built rescue transaction.
pub open spec fn summary_lines(s: RescueSummary) -> Seq<Seq<char>> {
    seq![
        "✓ Transaction constructed successfully"@,
        Seq::empty(),
        "=== Transaction Summary ==="@,
        "Amount: "@ + decimal(s.amount as nat) + " sats"@,
        "Return Address: "@ + s.return_address@,
        "Network: "@ + s.network@,
        "Swap ID: "@ + s.swap_id@,
        "Type: "@ + uppercase(s.rescue_type@),
        Seq::empty(),
        "⚠ Please review the details above carefully"@,
    ]
}

/// A failed rescue is retried with the next swap index while
/// auto-increment is on and the index is below the maximum.
pub open spec fn retries(m: AppModel) -> bool {
    m.auto_increment && m.swap_index < m.max_swap_index
}

pub open spec fn after_rescue_completed(m: AppModel, r: Result<RescueSummary, String>) -> AppModel {
    match r {
        Ok(s) => AppModel {
            logs: m.logs + summary_lines(s),
            state: AppState::AwaitingConfirmation,
            error_message: None,
            ..m
        },
        Err(e) => {
            let m1 = with_log(m, "✗ Error: "@ + e@);
            if retries(m) {
                let next = (m.swap_index + 1) as u64;
                AppModel {
                    swap_index: next,
                    logs: m1.logs.push(
                        "↻ Auto-increment: retrying with swap index "@ + decimal(next as nat)
                            + " (max "@ + decimal(m.max_swap_index as nat) + ")"@,
                    ),
                    error_message: None,
                    ..m1
                }
            } else {
                let m2 = if m.auto_increment {
                    with_log(
                        m1,
                        "✗ Auto-increment stopped: reached max index "@ + decimal(
                            m.max_swap_index as nat,
                        ),
                    )
                } else {
                    m1
                };
                AppModel { error_message: Some(e@), state: AppState::Error, ..m2 }
            }
        },
    }
}

pub open spec fn after_broadcast_completed(m: AppModel, r: Result<String, String>) -> AppModel {
    match r {
        Ok(msg) => AppModel {
            logs: m.logs + seq![
                "✓ Transaction broadcast successfully!"@,
                msg@,
                Seq::empty(),
                "=== COMPLETED ==="@,
            ],
            state: AppState::Completed,
            ..m
        },
        Err(e) => AppModel {
            logs: m.logs.push("✗ Broadcast error: "@ + e@),
            error_message: Some(e@),
            state: AppState::Error,
            ..m
        },
    }
}

/// The state of the window after event `msg`.
pub open spec fn next_model(m: AppModel, msg: Message) -> AppModel {
    match msg {
        Message::LoadConfig => with_log(m, "Opening file picker..."@),
        Message::ConfigLoaded(r) => after_config_loaded(m, r),
        Message::MnemonicWordChanged(idx, raw) => after_word_changed(m, idx, raw@),
        Message::MnemonicWordPicked(idx, word) => after_word_picked(m, idx, word@),
        Message::MnemonicWordEdit(idx) => after_word_edit(m, idx),
        Message::ToggleMnemonicVisibility => AppModel { visible: !m.visible, ..m },
        Message::SetMnemonicExpanded(b) => AppModel { expanded: b, ..m },
        Message::SetWordCount(count) => after_set_word_count(m, count),
        Message::PassphraseChanged(v) => AppModel { passphrase: v@, ..m },
        Message::ReturnAddressChanged(v) => AppModel { return_address: v@, ..m },
        Message::SwapIndexChanged(v) => AppModel {
            swap_index: typed_index(v@, 0, m.swap_index),
            ..m
        },
        Message::ToggleAutoIncrement(enabled) => after_toggle_auto(m, enabled),
        Message::MaxSwapIndexChanged(v) => AppModel {
            max_swap_index_input: v@,
            max_swap_index: typed_index(v@, DEFAULT_MAX_SWAP_INDEX, m.max_swap_index),
            ..m
        },
        Message::ClearLogs => AppModel { logs: Seq::empty(), ..m },
        Message::CopyLogs => if m.logs.len() == 0 {
            m
        } else {
            with_log(m, "✓ Logs copied to clipboard"@)
        },
        Message::SaveLogs => m,
        Message::LogsSaved(r) => match r {
            Ok(path) => with_log(m, "✓ Logs saved to "@ + path@),
            Err(e) => with_log(m, "✗ Save failed: "@ + e@),
        },
        Message::ExecuteRescue => after_execute(m),
        Message::RescueCompleted(r) => after_rescue_completed(m, r),
        Message::ConfirmBroadcast => AppModel {
            state: AppState::Broadcasting,
            logs: m.logs + seq![Seq::empty(), "Broadcasting transaction to network..."@],
            ..m
        },
        Message::CancelBroadcast => AppModel {
            state: AppState::ConfigLoaded,
            logs: m.logs + seq![Seq::empty(), "✗ Broadcast cancelled by user"@],
            ..m
        },
        Message::BroadcastCompleted(r) => after_broadcast_completed(m, r),
    }
}

/// The focus move that typing or picking a word in box `idx` asks for.
pub open spec fn lock_focus(m: AppModel, idx: usize) -> Option<usize> {
    if idx + 1 < m.word_count {
        Some((idx + 1) as usize)
    } else {
        None
    }
}

/// A focus request, or nothing.
pub open spec fn focus_effect(f: Option<usize>, e: Effect) -> bool {
    match f {
        Some(i) => e == Effect::FocusWord(i),
        None => e == Effect::Nothing,
    }
}

/// `e` is the outside work that event `msg` asks for in state `m`.
pub open spec fn effect_of(m: AppModel, msg: Message, e: Effect) -> bool {
    match msg {
        Message::LoadConfig => e == Effect::PickConfigFile,
        Message::MnemonicWordChanged(idx, raw) => if !box_open(m, idx) {
            e == Effect::Nothing
        } else if has_white_space(raw@) {
            e == Effect::FocusWord(focus_after_paste(m, idx, raw@))
        } else {
            let value = lowercase(raw@);
            focus_effect(
                if value.len() > 0 && is_bip39_word_spec(value) {
                    lock_focus(m, idx)
                } else {
                    None
                },
                e,
            )
        },
        Message::MnemonicWordPicked(idx, _) => focus_effect(
            if box_open(m, idx) {
                lock_focus(m, idx)
            } else {
                None
            },
            e,
        ),
        Message::MnemonicWordEdit(idx) => if idx < m.word_count {
            e == Effect::FocusWord(idx)
        } else {
            e == Effect::Nothing
        },
        Message::CopyLogs => if m.logs.len() == 0 {
            e == Effect::Nothing
        } else {
            e matches Effect::WriteClipboard(t) && t@ == log_text(m)
        },
        Message::SaveLogs => if m.logs.len() == 0 {
            e == Effect::Nothing
        } else {
            e matches Effect::SaveLogs(t) && t@ == log_text(m)
        },
        Message::ExecuteRescue => match m.config {
            Some(c) if user_input_problem(m, collected_mnemonic_spec(m), trim(m.return_address))
                is None => e matches Effect::RunRescue(req) && {
                &&& req.config == c
                &&& req.mnemonic@ == collected_mnemonic_spec(m)
                &&& req.passphrase@ == m.passphrase
                &&& req.return_address@ == trim(m.return_address)
                &&& req.swap_index == m.swap_index
            },
            _ => e == Effect::Nothing,
        },
        Message::RescueCompleted(r) => if r is Err && retries(m) {
            e == Effect::RetryRescue
        } else {
            e == Effect::Nothing
        },
        Message::ConfirmBroadcast => e == Effect::Broadcast,
        Message::CancelBroadcast => e == Effect::DiscardTransaction,
        _ => e == Effect::Nothing,
    }
}


/// How many of `flags` are unset.
pub open spec fn unset_count(flags: Seq<bool>) -> nat
    decreases flags.len(),
{
    if flags.len() == 0 {
        0
    } else {
        unset_count(flags.drop_last()) + if flags.last() {
            0nat
        } else {
            1nat
        }
    }
}

/// The trimmed return address is an address of the network it must belong to.
pub open spec fn return_address_valid(m: AppModel) -> bool {
    let a = trim(m.return_address);
    a.len() > 0 && match expected_return_network_spec(m.config) {
        Some(c) => address_for_chain_spec(a, c),
        None => false,
    }
}

/// The rescue can be started: a config is loaded, the mnemonic is complete
/// and the return address belongs to the expected network.
pub open spec fn can_execute_spec(m: AppModel) -> bool {
    &&& m.config is Some
    &&& mnemonic_ready_spec(m)
    &&& return_address_valid(m)
}

/// Why the rescue cannot be started yet, if it cannot.
pub open spec fn blocker_reason_spec(m: AppModel) -> Option<Seq<char>> {
    if m.config is None {
        Some("Load provider config to begin"@)
    } else if !mnemonic_ready_spec(m) {
        Some(
            "Mnemonic incomplete ("@ + decimal(
                unset_count(m.locked.take(m.word_count as int)),
            ) + " of "@ + decimal(m.word_count as nat) + " words remaining)"@,
        )
    } else {
        let a = trim(m.return_address);
        if a.len() == 0 {
            Some("Enter a return address"@)
        } else {
            match expected_return_network_spec(m.config) {
                Some(c) => if address_for_chain_spec(a, c) {
                    None
                } else {
                    Some("Return address must be a valid "@ + chain_label_spec(c) + " address"@)
                },
                None => Some("Could not determine expected return network"@),
            }
        }
    }
}

} // verus!
