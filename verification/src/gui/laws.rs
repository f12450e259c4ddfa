//! Properties of the rescue window that hold across events.

use vstd::prelude::*;
use crate::chain::chain_named;
use crate::config::{lemma_valid_config_is_complete, provider_input_problem, Config};
use crate::chain::{address_for_chain_spec, chain_label_spec};
use crate::gui::app::{
    address_state_spec, initial_model, model_wf, AppModel, Effect, Message,
    ReturnAddressState, MAX_WORDS,
};
use crate::gui::display::{address_feedback_spec, suggestion_row_spec, SuggestionRow};
use crate::rescue::{plan_spec, RescuePlan};
use crate::gui::step::{
    after_execute, after_lock, after_paste, after_set_word_count, after_typed, after_word_changed,
    after_word_picked, expected_return_network_spec,
    all_locked, blocker_reason_spec, box_open, can_execute_spec, collected_mnemonic_spec,
    next_model, pasted_count, user_input_problem, word_count_after_paste,
    pasted_words, retries, effect_of, mnemonic_ready_spec, return_address_valid,
};
use crate::text::{
    has_white_space, is_plain_word, join, lemma_tokens_of_joined_words, lemma_trim_word, lowercase,
    tokens, trim,
};
use crate::words::is_bip39_word_spec;

verus! {

/// Word boxes past the word count are empty and unlocked.
pub open spec fn unused_boxes_clear(m: AppModel) -> bool {
    forall|i: int|
        m.word_count <= i < MAX_WORDS ==> (#[trigger] m.words[i]).len() == 0 && !m.locked[i]
}

/// Every locked word box holds a BIP39 word.
pub open spec fn locked_words_valid(m: AppModel) -> bool {
    forall|i: int| 0 <= i < MAX_WORDS && #[trigger] m.locked[i] ==> is_bip39_word_spec(m.words[i])
}

proof fn lemma_clear_after_paste(m: AppModel, idx: usize, raw: Seq<char>)
    requires
        model_wf(m),
        unused_boxes_clear(m),
        box_open(m, idx),
    ensures
        model_wf(after_paste(m, idx, raw)),
        unused_boxes_clear(after_paste(m, idx, raw)),
{
    let n = after_paste(m, idx, raw);
    assert forall|i: int| n.word_count <= i < MAX_WORDS implies (#[trigger] n.words[i]).len() == 0
        && !n.locked[i] by {
        assert(!(idx <= i < idx + pasted_count(m, idx, raw)));
        assert(n.words[i] == m.words[i]);
        assert(n.locked[i] == m.locked[i]);
    }
}

proof fn lemma_clear_frame(m: AppModel, n: AppModel)
    requires
        model_wf(m),
        unused_boxes_clear(m),
        n.word_count == m.word_count,
        n.words.len() == MAX_WORDS,
        n.locked.len() == MAX_WORDS,
        forall|i: int|
            m.word_count <= i < MAX_WORDS ==> n.words[i] == m.words[i] && n.locked[i]
                == m.locked[i],
    ensures
        model_wf(n),
        unused_boxes_clear(n),
{
    assert forall|i: int| n.word_count <= i < MAX_WORDS implies (#[trigger] n.words[i]).len() == 0
        && !n.locked[i] by {
        assert(n.words[i] == m.words[i]);
    }
}

proof fn lemma_clear_after_set_word_count(m: AppModel, c: usize)
    requires
        model_wf(m),
        unused_boxes_clear(m),
    ensures
        model_wf(after_set_word_count(m, c)),
        unused_boxes_clear(after_set_word_count(m, c)),
{
    let n = after_set_word_count(m, c);
    if c == 12 || c == 24 {
        assert forall|i: int| n.word_count <= i < MAX_WORDS implies (#[trigger] n.words[i]).len()
            == 0 && !n.locked[i] by {
            assert(n.words[i] == Seq::<char>::empty());
            assert(!n.locked[i]);
        }
    } else {
        assert(n == m);
    }
}

/// Every event keeps the boxes past the word count empty and unlocked.
#[verifier::spinoff_prover]
pub proof fn lemma_unused_boxes_stay_clear(m: AppModel, msg: Message)
    requires
        model_wf(m),
        unused_boxes_clear(m),
    ensures
        model_wf(next_model(m, msg)),
        unused_boxes_clear(next_model(m, msg)),
{
    let n = next_model(m, msg);
    match msg {
        Message::MnemonicWordChanged(idx, raw) => {
            if box_open(m, idx) {
                if has_white_space(raw@) {
                    lemma_clear_after_paste(m, idx, raw@);
                } else {
                    assert(n == after_typed(m, idx, raw@));
                    lemma_clear_frame(m, n);
                }
            }
        },
        Message::MnemonicWordPicked(idx, w) => {
            if box_open(m, idx) {
                lemma_clear_frame(m, n);
            }
        },
        Message::MnemonicWordEdit(idx) => {
            if idx < m.word_count {
                lemma_clear_frame(m, n);
            }
        },
        Message::SetWordCount(c) => {
            lemma_clear_after_set_word_count(m, c);
        },
        _ => {
            lemma_clear_frame(m, n);
        },
    }
}

/// Every event keeps locked boxes holding BIP39 words, except picking a
/// word that is not one.
pub proof fn lemma_locked_words_stay_valid(m: AppModel, msg: Message)
    requires
        model_wf(m),
        locked_words_valid(m),
        msg matches Message::MnemonicWordPicked(_, w) ==> is_bip39_word_spec(w@),
    ensures
        locked_words_valid(next_model(m, msg)),
{
    let n = next_model(m, msg);
    match msg {
        Message::MnemonicWordChanged(idx, raw) => {
            if box_open(m, idx) && has_white_space(raw@) {
                assert forall|i: int| 0 <= i < MAX_WORDS && #[trigger] n.locked[i] implies is_bip39_word_spec(
                    n.words[i],
                ) by {}
            }
        },
        _ => {},
    }
}

/// The rescue is blocked, with a stated reason, exactly when it cannot be
/// started.
pub proof fn lemma_blocker_iff_not_executable(m: AppModel)
    ensures
        (blocker_reason_spec(m) is None) == can_execute_spec(m),
{
}

/// A failed rescue is retried, with the swap index one higher, exactly while
/// auto-increment is on and the index is below the maximum; so retries never
/// carry the index past the maximum.
pub proof fn lemma_retry_bounded(m: AppModel, e: String)
    requires
        m.swap_index <= m.max_swap_index,
    ensures
        ({
            let n = next_model(m, Message::RescueCompleted(Err(e)));
            &&& n.swap_index <= n.max_swap_index
            &&& n.max_swap_index == m.max_swap_index
            &&& retries(m) ==> n.swap_index == m.swap_index + 1
            &&& !retries(m) ==> n.swap_index == m.swap_index
        }),
{
}

/// Pasting 24 or more words into the first box of a 12-word mnemonic
/// switches to 24 words and fills every box with the first 24 pasted words,
/// lowercased.
pub proof fn lemma_full_paste_fills_grid(m: AppModel, raw: String)
    requires
        model_wf(m),
        m.word_count == 12,
        !m.locked[0],
        has_white_space(raw@),
        pasted_words(raw@).len() >= 24,
    ensures
        ({
            let n = next_model(m, Message::MnemonicWordChanged(0, raw));
            &&& n.word_count == 24
            &&& n.words =~= pasted_words(raw@).take(24)
        }),
{
}


/// For a config that passes validation, the rescue plan pays out on the very
/// network that the return address is checked against; and the plan is
/// always made.
pub proof fn lemma_rescue_pays_to_checked_network(c: Config, r: Result<RescuePlan, String>)
    requires
        ({
            let p = c.provider_input;
            let rt = lowercase(p.rescue_type@);
            let st = lowercase(p.swap_type@);
            &&& provider_input_problem(
                p,
                rt,
                st,
                lowercase(p.from_network_str@),
                lowercase(p.to_network_str@),
            ) is None
            &&& plan_spec(
                p,
                rt,
                st,
                lowercase(p.from_network_str@),
                lowercase(p.to_network_str@),
                r,
            )
        }),
    ensures
        ({
            &&& r is Ok
            &&& r matches Ok(plan) ==> expected_return_network_spec(Some(c)) == Some(
                plan.target_network_spec(),
            )
        }),
{
    let p = c.provider_input;
    let rt = lowercase(p.rescue_type@);
    let st = lowercase(p.swap_type@);
    lemma_valid_config_is_complete(
        p,
        rt,
        st,
        lowercase(p.from_network_str@),
        lowercase(p.to_network_str@),
    );
    let from = chain_named(lowercase(p.from_network_str@));
    let to = chain_named(lowercase(p.to_network_str@));
    reveal_strlit("chain");
    reveal_strlit("reverse");
    reveal_strlit("claim");
    reveal_strlit("refund");
    if r is Ok {
        let plan = r->Ok_0;
        if st == "chain"@ && rt == "claim"@ {
            assert("chain"@.len() != "reverse"@.len());
            assert("claim"@[1] != "refund"@[1]);
            assert(expected_return_network_spec(Some(c)) == to);
        } else {
            assert(expected_return_network_spec(Some(c)) == from);
            assert(plan.target_network_spec() == from->0);
        }
    }
}


/// The window opens with every box unlocked and empty, so both box
/// invariants hold from the start.
pub proof fn lemma_initial_window_invariants(m: AppModel)
    requires
        initial_model(m),
    ensures
        model_wf(m),
        unused_boxes_clear(m),
        locked_words_valid(m),
{
    assert forall|i: int| m.word_count <= i < MAX_WORDS implies (#[trigger] m.words[i]).len() == 0
        && !m.locked[i] by {
        assert(m.words[i] == Seq::<char>::empty());
    }
}

/// The passphrase never reaches the log, whatever the event; so neither the
/// clipboard nor a saved log file can hold it.
#[verifier::spinoff_prover]
pub proof fn lemma_passphrase_never_logged(m: AppModel, msg: Message, other: Seq<char>)
    ensures
        next_model(m, msg).logs == next_model(AppModel { passphrase: other, ..m }, msg).logs,
{
    let m2 = AppModel { passphrase: other, ..m };
    assert(collected_mnemonic_spec(m2) == collected_mnemonic_spec(m));
    assert(all_locked(m2) == all_locked(m));
    assert(user_input_problem(m2, collected_mnemonic_spec(m), trim(m.return_address))
        == user_input_problem(m, collected_mnemonic_spec(m), trim(m.return_address)));
}


/// When every word in use is non-empty and free of whitespace, the mnemonic
/// handed to a rescue is exactly those words joined by single spaces, and it
/// passes the word-count check.
pub proof fn lemma_collected_mnemonic_of_words(m: AppModel)
    requires
        model_wf(m),
        forall|i: int| 0 <= i < m.word_count ==> is_plain_word(#[trigger] m.words[i]),
    ensures
        collected_mnemonic_spec(m) == join(m.words.take(m.word_count as int), " "@),
        tokens(collected_mnemonic_spec(m)).len() == m.word_count,
{
    let ws = m.words.take(m.word_count as int);
    let trimmed = ws.map_values(|w: Seq<char>| trim(w));
    assert forall|i: int| 0 <= i < ws.len() implies is_plain_word(#[trigger] ws[i]) by {
        assert(ws[i] == m.words[i]);
    }
    assert forall|i: int| 0 <= i < ws.len() implies #[trigger] trimmed[i] == ws[i] by {
        lemma_trim_word(ws[i]);
    }
    assert(trimmed =~= ws);
    lemma_tokens_of_joined_words(ws);
}


/// Once typing, pasting or picking a word leaves every word in use locked,
/// the mnemonic block is folded to its banner.
pub proof fn lemma_completing_mnemonic_folds(m: AppModel, msg: Message)
    requires
        model_wf(m),
        msg is MnemonicWordChanged || msg is MnemonicWordPicked,
        !all_locked(m),
        all_locked(next_model(m, msg)),
    ensures
        !next_model(m, msg).expanded,
{
    let n = next_model(m, msg);
    match msg {
        Message::MnemonicWordChanged(idx, raw) => {
            if box_open(m, idx) && !has_white_space(raw@) {
                let value = lowercase(raw@);
                if !(value.len() > 0 && is_bip39_word_spec(value)) {
                    assert(n.locked == m.locked);
                    assert(n.word_count == m.word_count);
                }
            }
        },
        _ => {},
    }
}


/// `a` and `b` differ at most in the mnemonic words and the passphrase.
pub open spec fn differ_in_secrets_only(a: AppModel, b: AppModel) -> bool {
    &&& a.state == b.state
    &&& a.config == b.config
    &&& a.logs == b.logs
    &&& a.error_message == b.error_message
    &&& a.words.len() == b.words.len()
    &&& a.locked == b.locked
    &&& a.visible == b.visible
    &&& a.expanded == b.expanded
    &&& a.word_count == b.word_count
    &&& a.focused_word == b.focused_word
    &&& a.return_address == b.return_address
    &&& a.swap_index == b.swap_index
    &&& a.auto_increment == b.auto_increment
    &&& a.max_swap_index == b.max_swap_index
    &&& a.max_swap_index_input == b.max_swap_index_input
}

proof fn lemma_secrets_after_lock(a: AppModel, b: AppModel, idx: usize)
    requires
        differ_in_secrets_only(a, b),
    ensures
        differ_in_secrets_only(after_lock(a, idx), after_lock(b, idx)),
{
    assert(all_locked(a) == all_locked(b));
}

proof fn lemma_secrets_word_changed(a: AppModel, b: AppModel, idx: usize, raw: Seq<char>)
    requires
        model_wf(a),
        differ_in_secrets_only(a, b),
    ensures
        differ_in_secrets_only(after_word_changed(a, idx, raw), after_word_changed(b, idx, raw)),
{
    if box_open(a, idx) {
        if has_white_space(raw) {
            let pa = after_paste(a, idx, raw);
            let pb = after_paste(b, idx, raw);
            assert(pa.locked =~= pb.locked);
        } else {
            let value = lowercase(raw);
            let a1 = AppModel { words: a.words.update(idx as int, value), focused_word: Some(idx), ..a };
            let b1 = AppModel { words: b.words.update(idx as int, value), focused_word: Some(idx), ..b };
            if value.len() > 0 && is_bip39_word_spec(value) {
                lemma_secrets_after_lock(
                    AppModel { locked: a1.locked.update(idx as int, true), ..a1 },
                    AppModel { locked: b1.locked.update(idx as int, true), ..b1 },
                    idx,
                );
            }
        }
    }
}

proof fn lemma_secrets_word_picked(a: AppModel, b: AppModel, idx: usize, w: Seq<char>)
    requires
        model_wf(a),
        differ_in_secrets_only(a, b),
    ensures
        differ_in_secrets_only(after_word_picked(a, idx, w), after_word_picked(b, idx, w)),
{
    if box_open(a, idx) {
        lemma_secrets_after_lock(
            AppModel { words: a.words.update(idx as int, w), locked: a.locked.update(idx as int, true), ..a },
            AppModel { words: b.words.update(idx as int, w), locked: b.locked.update(idx as int, true), ..b },
            idx,
        );
    }
}

proof fn lemma_secrets_set_word_count(a: AppModel, b: AppModel, c: usize)
    requires
        model_wf(a),
        differ_in_secrets_only(a, b),
    ensures
        differ_in_secrets_only(after_set_word_count(a, c), after_set_word_count(b, c)),
{
    assert(after_set_word_count(a, c).locked =~= after_set_word_count(b, c).locked);
}

proof fn lemma_secrets_execute(a: AppModel, b: AppModel)
    requires
        differ_in_secrets_only(a, b),
        tokens(collected_mnemonic_spec(a)).len() == tokens(collected_mnemonic_spec(b)).len(),
    ensures
        differ_in_secrets_only(after_execute(a), after_execute(b)),
{
    assert(all_locked(a) == all_locked(b));
    let pa = user_input_problem(a, collected_mnemonic_spec(a), trim(a.return_address));
    let pb = user_input_problem(b, collected_mnemonic_spec(b), trim(b.return_address));
    assert(pa == pb);
}

/// The log never depends on the mnemonic words or the passphrase: two
/// windows that differ only in those, with mnemonics of the same number of
/// words, log the same lines for any event and still differ only in those.
/// So nothing the log exports (clipboard, saved file) holds them.
#[verifier::spinoff_prover]
#[verifier::rlimit(50)]
pub proof fn lemma_secrets_never_logged(a: AppModel, b: AppModel, msg: Message)
    requires
        model_wf(a),
        differ_in_secrets_only(a, b),
        tokens(collected_mnemonic_spec(a)).len() == tokens(collected_mnemonic_spec(b)).len(),
    ensures
        next_model(a, msg).logs == next_model(b, msg).logs,
        differ_in_secrets_only(next_model(a, msg), next_model(b, msg)),
{
    match msg {
        Message::MnemonicWordChanged(idx, raw) => lemma_secrets_word_changed(a, b, idx, raw@),
        Message::MnemonicWordPicked(idx, w) => lemma_secrets_word_picked(a, b, idx, w@),
        Message::SetWordCount(c) => lemma_secrets_set_word_count(a, b, c),
        Message::ExecuteRescue => lemma_secrets_execute(a, b),
        _ => {},
    }
}


/// A paste of `n > 0` words into open box `idx` moves the focus to the box
/// after the last pasted word, or to the last box when the paste reached it;
/// the effect asks the window to focus that same box.
pub proof fn lemma_paste_focus_after_last_word(m: AppModel, idx: usize, raw: String, e: Effect)
    requires
        model_wf(m),
        idx < m.word_count,
        !m.locked[idx as int],
        has_white_space(raw@),
        tokens(raw@).len() > 0,
        effect_of(m, Message::MnemonicWordChanged(idx, raw), e),
    ensures
        ({
            let n = next_model(m, Message::MnemonicWordChanged(idx, raw));
            let wc = n.word_count as int;
            let room = wc - idx;
            let k = if tokens(raw@).len() <= room {
                tokens(raw@).len() as int
            } else {
                room
            };
            let focus = if idx + k < wc - 1 {
                idx + k
            } else {
                wc - 1
            };
            &&& n.focused_word matches Some(f) && f == focus
            &&& e matches Effect::FocusWord(f) && f == focus
            &&& forall|i: int| idx <= i < idx + k ==> #[trigger] n.words[i] == lowercase(tokens(raw@)[i - idx])
            &&& forall|i: int| idx <= i < idx + k ==> #[trigger] n.locked[i] == is_bip39_word_spec(
                lowercase(tokens(raw@)[i - idx]),
            )
        }),
{
    assert(pasted_words(raw@).len() == tokens(raw@).len());
}

/// The rescue can only be started, and no blocker is shown, when every word
/// box in use holds a word and is locked.
pub proof fn lemma_execute_needs_every_word_locked(m: AppModel)
    requires
        model_wf(m),
    ensures
        mnemonic_ready_spec(m) ==> forall|i: int| 0 <= i < m.word_count ==> #[trigger] m.locked[i]
            && m.words[i].len() > 0,
        can_execute_spec(m) ==> forall|i: int| 0 <= i < m.word_count ==> #[trigger] m.locked[i],
        m.config is Some && (exists|i: int| 0 <= i < m.word_count && !#[trigger] m.locked[i])
            ==> !can_execute_spec(m) && blocker_reason_spec(m) is Some && blocker_reason_spec(m)
            != Some("Enter a return address"@),
{
    if m.config is Some && (exists|i: int| 0 <= i < m.word_count && !#[trigger] m.locked[i]) {
        let i = choose|i: int| 0 <= i < m.word_count && !#[trigger] m.locked[i];
        assert(!all_locked(m));
        reveal_strlit("Enter a return address");
        reveal_strlit("Mnemonic incomplete (");
        assert("Mnemonic incomplete ("@[0] != "Enter a return address"@[0]);
    }
}

/// For a config that passes validation, the return address is measured
/// against the network the planned rescue pays out on: its state, the line
/// under it, whether it counts as valid and the blocker it raises all name
/// that network.
pub proof fn lemma_return_address_checked_on_payout_network(
    m: AppModel,
    c: Config,
    r: Result<RescuePlan, String>,
    s: ReturnAddressState,
)
    requires
        m.config == Some(c),
        ({
            let p = c.provider_input;
            let rt = lowercase(p.rescue_type@);
            let st = lowercase(p.swap_type@);
            &&& provider_input_problem(
                p,
                rt,
                st,
                lowercase(p.from_network_str@),
                lowercase(p.to_network_str@),
            ) is None
            &&& plan_spec(
                p,
                rt,
                st,
                lowercase(p.from_network_str@),
                lowercase(p.to_network_str@),
                r,
            )
        }),
        trim(m.return_address).len() > 0,
        address_state_spec(m, s),
    ensures
        r is Ok,
        ({
            let t = r->Ok_0.target_network_spec();
            let a = trim(m.return_address);
            let label = chain_label_spec(t);
            &&& address_for_chain_spec(a, t) ==> (s matches ReturnAddressState::Valid(l) && l@
                == label)
            &&& !address_for_chain_spec(a, t) ==> (s matches ReturnAddressState::Invalid(l) && l@
                == label)
            &&& return_address_valid(m) == address_for_chain_spec(a, t)
            &&& address_feedback_spec(m) == if address_for_chain_spec(a, t) {
                "✓ Valid "@ + label + " address"@
            } else {
                "✗ Not a valid "@ + label + " address — expected "@ + label
            }
            &&& mnemonic_ready_spec(m) ==> blocker_reason_spec(m) == if address_for_chain_spec(
                a,
                t,
            ) {
                None
            } else {
                Some("Return address must be a valid "@ + label + " address"@)
            }
        }),
{
    lemma_rescue_pays_to_checked_network(c, r);
}

/// No word suggestions are offered for a locked box: with the focus on a
/// locked box the suggestion row is hidden.
pub proof fn lemma_no_suggestions_for_locked_box(m: AppModel, r: SuggestionRow)
    requires
        m.focused_word matches Some(i) && m.locked[i as int],
        suggestion_row_spec(m, r),
    ensures
        r is Hidden,
{
}

} // verus!
