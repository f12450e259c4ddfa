//! What the rescue window shows: texts and choices derived from its state.

use vstd::prelude::*;
use crate::chain::{address_for_chain_spec, chain_label_spec};
use crate::config::Config;
use crate::gui::app::{
    address_state_spec, opt_view, AppModel, AppState, ReturnAddressState, SwapRescueApp, MAX_WORDS,
};
use crate::gui::step::{
    all_locked, blocker_reason_spec, can_execute_spec, expected_return_network_spec,
    to_network_display,
};
use crate::text::{decimal, decimal_string, lowercase, to_lowercase, to_uppercase, uppercase};
use crate::words::{bip39_suggestions, suggestions_spec};

verus! {

/// Word boxes per row of the mnemonic grid.
pub const WORDS_PER_ROW: usize = 3;

/// The row of word suggestions under the mnemonic grid.
#[derive(Debug)]
pub enum SuggestionRow {
    /// No row: no open box has the focus, or it is empty.
    Hidden,
    /// No BIP39 word starts with what the box holds (given as typed).
    NoMatch(String),
    /// Words to pick for box `idx`.
    Words(usize, Vec<String>),
}

/// `r` is the suggestion row of `m`.
pub open spec fn suggestion_row_spec(m: AppModel, r: SuggestionRow) -> bool {
    match m.focused_word {
        None => r is Hidden,
        Some(idx) => if idx >= m.word_count || m.locked[idx as int] || m.words[idx as int].len()
            == 0 {
            r is Hidden
        } else {
            let found = suggestions_spec(lowercase(m.words[idx as int]));
            if found.len() == 0 {
                r matches SuggestionRow::NoMatch(p) && p@ == m.words[idx as int]
            } else {
                r matches SuggestionRow::Words(i, ws) && i == idx && ws@.map_values(
                    |s: String| s@,
                ) == found
            }
        },
    }
}

/// The suggestion row under the mnemonic grid.
pub fn suggestion_row(app: &SwapRescueApp) -> (r: SuggestionRow)
    requires
        app.wf(),
    ensures
        suggestion_row_spec(app@, r),
{
    let idx = match app.focused_word() {
        Some(i) => i,
        None => {
            return SuggestionRow::Hidden;
        },
    };
    if idx >= app.word_count() || app.is_locked(idx) {
        return SuggestionRow::Hidden;
    }
    let prefix = app.word(idx);
    if prefix.is_empty() {
        return SuggestionRow::Hidden;
    }
    let prefix_lower = to_lowercase(prefix);
    let found = bip39_suggestions(prefix_lower.as_str());
    if found.len() == 0 {
        SuggestionRow::NoMatch(String::from_str(prefix))
    } else {
        SuggestionRow::Words(idx, found)
    }
}

/// `n` bullets.
pub open spec fn bullets(n: nat) -> Seq<char> {
    Seq::new(n, |i: int| '•')
}

/// A hidden word shows as bullets, one per character and at least three.
pub open spec fn masked_spec(value: Seq<char>) -> Seq<char> {
    bullets(if value.len() < 3 { 3 } else { value.len() })
}

/// The bullets that stand for a hidden word.
pub fn masked_word(value: &str) -> (r: String)
    ensures
        r@ == masked_spec(value@),
{
    let count = value.unicode_len();
    let n = if count < 3 {
        3
    } else {
        count
    };
    let mut r = String::new();
    let mut i: usize = 0;
    while i < n
        invariant
            i <= n,
            r@ == bullets(i as nat),
        decreases n - i,
    {
        proof {
            reveal_strlit("•");
        }
        r.append("•");
        i = i + 1;
        assert(r@ =~= bullets(i as nat));
    }
    r
}

/// What a locked word box shows: the word, or bullets while words are hidden.
pub fn locked_word_text(app: &SwapRescueApp, idx: usize) -> (r: String)
    requires
        app.wf(),
        idx < MAX_WORDS,
    ensures
        r@ == if app@.visible {
            app@.words[idx as int]
        } else {
            masked_spec(app@.words[idx as int])
        },
{
    if app.mnemonic_visible() {
        String::from_str(app.word(idx))
    } else {
        masked_word(app.word(idx))
    }
}

/// Whether the mnemonic block shows only its one-line banner.
pub fn shows_collapsed_mnemonic(app: &SwapRescueApp) -> (r: bool)
    requires
        app.wf(),
    ensures
        r == (all_locked(app@) && !app@.expanded),
{
    app.all_words_locked() && !app.mnemonic_expanded()
}

/// The banner of a folded mnemonic block.
pub fn collapsed_banner(app: &SwapRescueApp) -> (r: String)
    ensures
        r@ == "✓ Mnemonic entered ("@ + decimal(app@.word_count as nat) + " words)"@,
{
    let n = decimal_string(app.word_count() as u64);
    String::from_str("✓ Mnemonic entered (").concat(n.as_str()).concat(" words)")
}

/// Rows of the mnemonic grid: three word boxes to a row.
pub fn mnemonic_grid_rows(word_count: usize) -> (r: usize)
    requires
        word_count <= MAX_WORDS,
    ensures
        r * WORDS_PER_ROW >= word_count,
        r * WORDS_PER_ROW < word_count + WORDS_PER_ROW,
{
    (word_count + WORDS_PER_ROW - 1) / WORDS_PER_ROW
}

/// The number in front of word box `idx`: its position, right-aligned in
/// two columns, and a dot.
pub fn word_number_label(idx: usize) -> (r: String)
    requires
        idx < MAX_WORDS,
    ensures
        r@ == if idx + 1 < 10 {
            " "@ + decimal((idx + 1) as nat) + "."@
        } else {
            decimal((idx + 1) as nat) + "."@
        },
{
    let n = decimal_string((idx + 1) as u64);
    if idx + 1 < 10 {
        String::from_str(" ").concat(n.as_str()).concat(".")
    } else {
        n.concat(".")
    }
}

/// How a missing `to_network` is shown.
pub fn to_network_text(to: &str) -> (r: String)
    ensures
        r@ == to_network_display(to@),
{
    if to.is_empty() {
        String::from_str("(n/a)")
    } else {
        String::from_str(to)
    }
}

/// The label and value rows that describe a loaded provider config.
pub open spec fn provider_details_spec(c: Config) -> Seq<(Seq<char>, Seq<char>)> {
    let p = c.provider_input;
    seq![
        ("Swap ID"@, p.swap_id@),
        ("Swap Type"@, uppercase(p.swap_type@)),
        ("Rescue Type"@, uppercase(p.rescue_type@)),
        ("Direction"@, p.from_network_str@ + " → "@ + to_network_display(p.to_network_str@)),
        ("Amount"@, decimal(p.amount as nat) + " sats"@),
    ]
}

/// The label and value rows that describe a loaded provider config.
pub fn provider_details(c: &Config) -> (r: Vec<(&'static str, String)>)
    ensures
        r@.map_values(|row: (&'static str, String)| (row.0@, row.1@)) == provider_details_spec(*c),
{
    let p = &c.provider_input;
    let mut r: Vec<(&'static str, String)> = Vec::new();
    r.push(("Swap ID", p.swap_id.clone()));
    r.push(("Swap Type", to_uppercase(p.swap_type.as_str())));
    r.push(("Rescue Type", to_uppercase(p.rescue_type.as_str())));
    let to = to_network_text(p.to_network_str.as_str());
    r.push(
        ("Direction", String::from_str(p.from_network_str.as_str()).concat(" → ").concat(to.as_str())),
    );
    let amount = decimal_string(p.amount);
    r.push(("Amount", amount.concat(" sats")));
    assert(r@.map_values(|row: (&'static str, String)| (row.0@, row.1@)) =~= provider_details_spec(*c));
    r
}

/// The label of the return address box, naming the expected network.
pub fn return_address_label(app: &SwapRescueApp) -> (r: String)
    ensures
        r@ == match expected_return_network_spec(app@.config) {
            Some(c) => "Return address (expected: "@ + chain_label_spec(c) + ")"@,
            None => "Return address"@,
        },
{
    match app.expected_return_chain() {
        Some((_, label)) => String::from_str("Return address (expected: ").concat(label).concat(")"),
        None => String::from_str("Return address"),
    }
}

/// The line under the return address box.
pub open spec fn address_feedback_spec(m: AppModel) -> Seq<char> {
    let a = crate::text::trim(m.return_address);
    if a.len() == 0 {
        "Claim: enter to_network address · Refund: enter from_network address"@
    } else {
        match expected_return_network_spec(m.config) {
            Some(c) => if address_for_chain_spec(a, c) {
                "✓ Valid "@ + chain_label_spec(c) + " address"@
            } else {
                "✗ Not a valid "@ + chain_label_spec(c) + " address — expected "@ + chain_label_spec(c)
            },
            None => "Could not determine expected network from config"@,
        }
    }
}

/// The line under the return address box.
pub fn return_address_feedback(app: &SwapRescueApp) -> (r: String)
    ensures
        r@ == address_feedback_spec(app@),
{
    let st = app.return_address_state();
    assert(address_state_spec(app@, st));
    match st {
        ReturnAddressState::Empty => String::from_str(
            "Claim: enter to_network address · Refund: enter from_network address",
        ),
        ReturnAddressState::Valid(label) => String::from_str("✓ Valid ").concat(label).concat(
            " address",
        ),
        ReturnAddressState::Invalid(label) => String::from_str("✗ Not a valid ").concat(label).concat(
            " address — expected ",
        ).concat(label),
        ReturnAddressState::Unknown => String::from_str(
            "Could not determine expected network from config",
        ),
    }
}

/// The line that tells which swap index is being tried.
pub fn swap_index_status(app: &SwapRescueApp) -> (r: String)
    ensures
        r@ == "Currently trying: "@ + decimal(app@.swap_index as nat) + " (will retry up to "@
            + decimal(app@.max_swap_index as nat) + " on failure)"@,
{
    let i = decimal_string(app.swap_index());
    let m = decimal_string(app.max_swap_index());
    String::from_str("Currently trying: ").concat(i.as_str()).concat(" (will retry up to ").concat(
        m.as_str(),
    ).concat(" on failure)")
}

/// What the action area at the foot of the window shows.
#[derive(Debug)]
pub enum ActionRow {
    /// Nothing: no config is loaded yet.
    Empty,
    /// The Execute button, pressable when `enabled`, with the reason it is
    /// not under it.
    Execute { enabled: bool, blocker: Option<String> },
    /// The Confirm & Broadcast and Cancel buttons.
    ConfirmOrCancel,
    /// A status line while work is under way.
    Status(String),
    /// The line that reports the rescue broadcast.
    Completed(String),
}

/// `r` is the action area of `m`.
pub open spec fn action_row_spec(m: AppModel, r: ActionRow) -> bool {
    match m.state {
        AppState::Idle => r is Empty,
        AppState::ConfigLoaded | AppState::Error => r matches ActionRow::Execute {
            enabled,
            blocker,
        } && enabled == can_execute_spec(m) && opt_view(blocker) == blocker_reason_spec(m),
        AppState::Executing => r matches ActionRow::Status(t) && t@ == "Executing..."@,
        AppState::AwaitingConfirmation => r is ConfirmOrCancel,
        AppState::Broadcasting => r matches ActionRow::Status(t) && t@ == "Broadcasting..."@,
        AppState::Completed => r matches ActionRow::Completed(t) && t@
            == "✓ Completed Successfully"@,
    }
}

/// The action area at the foot of the window.
pub fn action_row(app: &SwapRescueApp) -> (r: ActionRow)
    requires
        app.wf(),
    ensures
        action_row_spec(app@, r),
{
    match app.state() {
        AppState::Idle => ActionRow::Empty,
        AppState::ConfigLoaded | AppState::Error => ActionRow::Execute {
            enabled: app.can_execute_rescue(),
            blocker: app.execute_blocker_reason(),
        },
        AppState::Executing => ActionRow::Status(String::from_str("Executing...")),
        AppState::AwaitingConfirmation => ActionRow::ConfirmOrCancel,
        AppState::Broadcasting => ActionRow::Status(String::from_str("Broadcasting...")),
        AppState::Completed => ActionRow::Completed(
            String::from_str("✓ Completed Successfully"),
        ),
    }
}

} // verus!
