//! The state of the rescue window and how each user or task event changes it.

use vstd::prelude::*;
use crate::chain::{
    address_for_chain_spec, chain_label, chain_label_spec, is_address_for_chain, parse_chain, Chain,
};
use crate::config::{reports, Config};
use crate::gui::step::{
    after_broadcast_completed, after_config_loaded, after_execute, after_lock, after_paste,
    after_rescue_completed, after_set_word_count, after_toggle_auto, after_typed, after_word_edit,
    after_word_picked, all_locked, fold_if_complete, blocker_reason_spec, box_open, can_execute_spec,
    collected_mnemonic_spec, effect_of, expected_return_network_spec, focus_after_paste,
    lock_focus, mnemonic_ready_spec, next_model, pasted_count, pasted_words, retries,
    typed_index, unset_count, user_input_problem, with_log, word_count_after_paste,
};
use crate::rescue::RescueSummary;
use crate::text::{
    contains_white_space, decimal_string, has_white_space, join_strings, join_strs, lowercase,
    parse_u64, split_whitespace_str, str_eq, to_lowercase, to_uppercase, tokens, trim, trim_str,
};
use crate::words::{is_bip39_word, is_bip39_word_spec};

verus! {

/// Most words a mnemonic can have.
pub const MAX_WORDS: usize = 24;

/// The highest swap index tried by default when auto-incrementing.
pub const DEFAULT_MAX_SWAP_INDEX: u64 = 210;

/// An event of the rescue window: a user action or the end of a task.
#[derive(Debug)]
pub enum Message {
    LoadConfig,
    ConfigLoaded(Result<Config, String>),
    MnemonicWordChanged(usize, String),
    MnemonicWordPicked(usize, String),
    MnemonicWordEdit(usize),
    ToggleMnemonicVisibility,
    SetMnemonicExpanded(bool),
    SetWordCount(usize),
    PassphraseChanged(String),
    ReturnAddressChanged(String),
    SwapIndexChanged(String),
    ToggleAutoIncrement(bool),
    MaxSwapIndexChanged(String),
    ClearLogs,
    CopyLogs,
    SaveLogs,
    LogsSaved(Result<String, String>),
    ExecuteRescue,
    RescueCompleted(Result<RescueSummary, String>),
    ConfirmBroadcast,
    CancelBroadcast,
    BroadcastCompleted(Result<String, String>),
}

fn copy_string_result(r: &Result<String, String>) -> (c: Result<String, String>)
    ensures
        c == *r,
{
    match r {
        Ok(s) => Ok(s.clone()),
        Err(e) => Err(e.clone()),
    }
}

impl Clone for Message {
    fn clone(&self) -> (c: Self)
        ensures
            c == *self,
    {
        match self {
            Message::LoadConfig => Message::LoadConfig,
            Message::ConfigLoaded(r) => Message::ConfigLoaded(
                match r {
                    Ok(c) => Ok(c.clone()),
                    Err(e) => Err(e.clone()),
                },
            ),
            Message::MnemonicWordChanged(i, s) => Message::MnemonicWordChanged(*i, s.clone()),
            Message::MnemonicWordPicked(i, s) => Message::MnemonicWordPicked(*i, s.clone()),
            Message::MnemonicWordEdit(i) => Message::MnemonicWordEdit(*i),
            Message::ToggleMnemonicVisibility => Message::ToggleMnemonicVisibility,
            Message::SetMnemonicExpanded(b) => Message::SetMnemonicExpanded(*b),
            Message::SetWordCount(n) => Message::SetWordCount(*n),
            Message::PassphraseChanged(s) => Message::PassphraseChanged(s.clone()),
            Message::ReturnAddressChanged(s) => Message::ReturnAddressChanged(s.clone()),
            Message::SwapIndexChanged(s) => Message::SwapIndexChanged(s.clone()),
            Message::ToggleAutoIncrement(b) => Message::ToggleAutoIncrement(*b),
            Message::MaxSwapIndexChanged(s) => Message::MaxSwapIndexChanged(s.clone()),
            Message::ClearLogs => Message::ClearLogs,
            Message::CopyLogs => Message::CopyLogs,
            Message::SaveLogs => Message::SaveLogs,
            Message::LogsSaved(r) => Message::LogsSaved(copy_string_result(r)),
            Message::ExecuteRescue => Message::ExecuteRescue,
            Message::RescueCompleted(r) => Message::RescueCompleted(
                match r {
                    Ok(s) => Ok(s.clone()),
                    Err(e) => Err(e.clone()),
                },
            ),
            Message::ConfirmBroadcast => Message::ConfirmBroadcast,
            Message::CancelBroadcast => Message::CancelBroadcast,
            Message::BroadcastCompleted(r) => Message::BroadcastCompleted(copy_string_result(r)),
        }
    }
}

/// Where the rescue workflow stands.
#[derive(Clone, Copy, Debug, PartialEq, Eq, Structural)]
pub enum AppState {
    Idle,
    ConfigLoaded,
    Executing,
    AwaitingConfirmation,
    Broadcasting,
    Completed,
    Error,
}

/// Everything a rescue run needs, handed to the task that builds the
/// transaction.
#[derive(Debug)]
pub struct RescueRequest {
    pub config: Config,
    pub mnemonic: String,
    pub passphrase: String,
    pub return_address: String,
    pub swap_index: u64,
}

/// Outside work that an event asks for.
#[derive(Debug)]
pub enum Effect {
    /// Nothing to do.
    Nothing,
    /// Let the user pick a provider config file, then report `ConfigLoaded`.
    PickConfigFile,
    /// Move the keyboard focus to the word box with this index.
    FocusWord(usize),
    /// Put this text on the clipboard.
    WriteClipboard(String),
    /// Let the user save this text to a file, then report `LogsSaved`.
    SaveLogs(String),
    /// Build the rescue transaction, then report `RescueCompleted`.
    RunRescue(RescueRequest),
    /// Deliver `ExecuteRescue` again.
    RetryRescue,
    /// Broadcast the built transaction, then report `BroadcastCompleted`.
    Broadcast,
    /// Forget the built transaction.
    DiscardTransaction,
}

/// The abstract state of the rescue window.
#[verifier::ext_equal]
pub struct AppModel {
    pub state: AppState,
    pub config: Option<Config>,
    pub logs: Seq<Seq<char>>,
    pub error_message: Option<Seq<char>>,
    pub words: Seq<Seq<char>>,
    pub locked: Seq<bool>,
    pub visible: bool,
    pub expanded: bool,
    pub word_count: usize,
    pub focused_word: Option<usize>,
    pub passphrase: Seq<char>,
    pub return_address: Seq<char>,
    pub swap_index: u64,
    pub auto_increment: bool,
    pub max_swap_index: u64,
    pub max_swap_index_input: Seq<char>,
}

/// The shape every window state keeps: a box and a lock flag for each of
/// the most words a mnemonic can have, and 12 or 24 words in use.
pub open spec fn model_wf(m: AppModel) -> bool {
    &&& m.words.len() == MAX_WORDS
    &&& m.locked.len() == MAX_WORDS
    &&& (m.word_count == 12 || m.word_count == 24)
}

/// What the return address box holds, measured against the network the
/// return address must belong to (named by its label).
#[derive(Debug)]
pub enum ReturnAddressState {
    Empty,
    Valid(&'static str),
    Invalid(&'static str),
    Unknown,
}

/// `s` describes the return address of `m`.
pub open spec fn address_state_spec(m: AppModel, s: ReturnAddressState) -> bool {
    let a = trim(m.return_address);
    if a.len() == 0 {
        s is Empty
    } else {
        match expected_return_network_spec(m.config) {
            Some(c) => if address_for_chain_spec(a, c) {
                s matches ReturnAddressState::Valid(l) && l@ == chain_label_spec(c)
            } else {
                s matches ReturnAddressState::Invalid(l) && l@ == chain_label_spec(c)
            },
            None => s is Unknown,
        }
    }
}

/// The state of the rescue window.
pub struct SwapRescueApp {
    state: AppState,
    config: Option<Config>,
    logs: Vec<String>,
    error_message: Option<String>,
    mnemonic_words: Vec<String>,
    mnemonic_locked: Vec<bool>,
    mnemonic_visible: bool,
    mnemonic_expanded: bool,
    word_count: usize,
    focused_word: Option<usize>,
    passphrase_input: String,
    return_address_input: String,
    swap_index_override: u64,
    auto_increment: bool,
    max_swap_index: u64,
    max_swap_index_input: String,
}

/// The characters of an optional string.
pub open spec fn opt_view(o: Option<String>) -> Option<Seq<char>> {
    match o {
        Some(s) => Some(s@),
        None => None,
    }
}

/// The characters of each string.
pub open spec fn strings_view(v: Seq<String>) -> Seq<Seq<char>> {
    v.map_values(|s: String| s@)
}

impl View for SwapRescueApp {
    type V = AppModel;

    closed spec fn view(&self) -> AppModel {
        AppModel {
            state: self.state,
            config: self.config,
            logs: strings_view(self.logs@),
            error_message: opt_view(self.error_message),
            words: strings_view(self.mnemonic_words@),
            locked: self.mnemonic_locked@,
            visible: self.mnemonic_visible,
            expanded: self.mnemonic_expanded,
            word_count: self.word_count,
            focused_word: self.focused_word,
            passphrase: self.passphrase_input@,
            return_address: self.return_address_input@,
            swap_index: self.swap_index_override,
            auto_increment: self.auto_increment,
            max_swap_index: self.max_swap_index,
            max_swap_index_input: self.max_swap_index_input@,
        }
    }
}

/// The window as it opens.
pub open spec fn initial_model(m: AppModel) -> bool {
    &&& m.state == AppState::Idle
    &&& m.config is None
    &&& m.logs.len() == 0
    &&& m.error_message is None
    &&& m.words =~= Seq::new(MAX_WORDS as nat, |i: int| Seq::<char>::empty())
    &&& m.locked =~= Seq::new(MAX_WORDS as nat, |i: int| false)
    &&& m.visible
    &&& m.expanded
    &&& m.word_count == 12
    &&& m.focused_word is None
    &&& m.passphrase.len() == 0
    &&& m.return_address.len() == 0
    &&& m.swap_index == 0
    &&& m.auto_increment
    &&& m.max_swap_index == DEFAULT_MAX_SWAP_INDEX
    &&& m.max_swap_index_input == "210"@
}

impl SwapRescueApp {
    /// The state is well formed.
    pub open spec fn wf(&self) -> bool {
        model_wf(self@)
    }

    /// The window as it opens.
    pub fn new() -> (app: Self)
        ensures
            app.wf(),
            initial_model(app@),
    {
        let mut words: Vec<String> = Vec::new();
        let mut locked: Vec<bool> = Vec::new();
        let mut i: usize = 0;
        while i < MAX_WORDS
            invariant
                i <= MAX_WORDS,
                words@.len() == i,
                locked@.len() == i,
                forall|k: int| 0 <= k < i ==> (#[trigger] words@[k])@ == Seq::<char>::empty(),
                forall|k: int| 0 <= k < i ==> !(#[trigger] locked@[k]),
            decreases MAX_WORDS - i,
        {
            words.push(String::new());
            locked.push(false);
            i = i + 1;
        }
        proof {
            reveal_strlit("210");
        }
        let app = SwapRescueApp {
            state: AppState::Idle,
            config: None,
            logs: Vec::new(),
            error_message: None,
            mnemonic_words: words,
            mnemonic_locked: locked,
            mnemonic_visible: true,
            mnemonic_expanded: true,
            word_count: 12,
            focused_word: None,
            passphrase_input: String::new(),
            return_address_input: String::new(),
            swap_index_override: 0,
            auto_increment: true,
            max_swap_index: DEFAULT_MAX_SWAP_INDEX,
            max_swap_index_input: String::from_str("210"),
        };
        assert(app@.words =~= Seq::new(MAX_WORDS as nat, |i: int| Seq::<char>::empty()));
        assert(app@.logs =~= Seq::<Seq<char>>::empty());
        app
    }

    /// The window title.
    pub fn title(&self) -> (t: String)
        ensures
            t@ == "Swap Rescue Tool"@,
    {
        String::from_str("Swap Rescue Tool")
    }

    fn append_log(&mut self, line: String)
        ensures
            final(self)@ == with_log(old(self)@, line@),
    {
        let ghost before = self@;
        self.logs.push(line);
        assert(self@ =~= with_log(before, line@));
    }
}

impl SwapRescueApp {
    /// Whether every word in use is locked.
    pub fn all_words_locked(&self) -> (r: bool)
        requires
            self.wf(),
        ensures
            r == all_locked(self@),
    {
        let mut i: usize = 0;
        while i < self.word_count
            invariant
                self.wf(),
                i <= self.word_count,
                forall|k: int| 0 <= k < i ==> self@.locked[k],
            decreases self.word_count - i,
        {
            if !self.mnemonic_locked[i] {
                return false;
            }
            i = i + 1;
        }
        true
    }

    /// Whether every word in use is locked and not empty.
    pub fn mnemonic_ready(&self) -> (r: bool)
        requires
            self.wf(),
        ensures
            r == mnemonic_ready_spec(self@),
    {
        if !self.all_words_locked() {
            return false;
        }
        let mut i: usize = 0;
        while i < self.word_count
            invariant
                self.wf(),
                i <= self.word_count,
                forall|k: int| 0 <= k < i ==> (#[trigger] self@.words[k]).len() > 0,
            decreases self.word_count - i,
        {
            if self.mnemonic_words[i].as_str().is_empty() {
                assert(self@.words[i as int].len() == 0);
                return false;
            }
            i = i + 1;
        }
        true
    }

    /// The mnemonic the words in use spell, words separated by single spaces.
    pub fn collected_mnemonic(&self) -> (r: String)
        requires
            self.wf(),
        ensures
            r@ == collected_mnemonic_spec(self@),
    {
        let ghost wanted = self@.words.take(self.word_count as int).map_values(
            |w: Seq<char>| trim(w),
        );
        let mut trimmed: Vec<&str> = Vec::new();
        let mut i: usize = 0;
        while i < self.word_count
            invariant
                self.wf(),
                i <= self.word_count,
                wanted == self@.words.take(self.word_count as int).map_values(
                    |w: Seq<char>| trim(w),
                ),
                trimmed@.map_values(|t: &str| t@) == wanted.take(i as int),
            decreases self.word_count - i,
        {
            let t = trim_str(self.mnemonic_words[i].as_str());
            let ghost before = trimmed@.map_values(|t: &str| t@);
            trimmed.push(t);
            assert(trimmed@.map_values(|t: &str| t@) =~= before.push(t@));
            assert(wanted.take(i + 1) =~= wanted.take(i as int).push(wanted[i as int]));
            i = i + 1;
        }
        assert(wanted.take(self.word_count as int) =~= wanted);
        let spaced = join_strs(&trimmed, " ");
        let parts = split_whitespace_str(spaced.as_str());
        join_strs(&parts, " ")
    }

    /// The network the return address must belong to, with its label.
    pub fn expected_return_chain(&self) -> (r: Option<(Chain, &'static str)>)
        ensures
            match r {
                Some((c, l)) => expected_return_network_spec(self@.config) == Some(c) && l@
                    == chain_label_spec(c),
                None => expected_return_network_spec(self@.config) is None,
            },
    {
        let config = match &self.config {
            Some(c) => c,
            None => {
                return None;
            },
        };
        let p = &config.provider_input;
        let rescue_type = to_lowercase(p.rescue_type.as_str());
        let swap_type = to_lowercase(p.swap_type.as_str());
        let network = if str_eq(swap_type.as_str(), "chain") && str_eq(rescue_type.as_str(), "claim") {
            p.to_network_str.as_str()
        } else {
            p.from_network_str.as_str()
        };
        match parse_chain(network) {
            Ok(c) => Some((c, chain_label(c))),
            Err(_) => None,
        }
    }

    /// Checks the mnemonic and the trimmed return address the user entered.
    pub fn validate_user_input(&self, mnemonic: &str, return_address: &str) -> (r: Result<(), String>)
        requires
            self.wf(),
        ensures
            reports(r, user_input_problem(self@, mnemonic@, return_address@)),
    {
        let parts = split_whitespace_str(mnemonic);
        if parts.len() != self.word_count {
            assert(tokens(mnemonic@).len() == parts@.len());
            let count = decimal_string(self.word_count as u64);
            return Err(
                String::from_str("Mnemonic must be exactly ").concat(count.as_str()).concat(
                    " words",
                ),
            );
        }
        assert(tokens(mnemonic@).len() == parts@.len());
        if !self.all_words_locked() {
            return Err(
                String::from_str("One or more mnemonic words are not in the BIP39 word list"),
            );
        }
        if return_address.is_empty() {
            return Err(String::from_str("Return address is required"));
        }
        match self.expected_return_chain() {
            Some((c, label)) => {
                if !is_address_for_chain(return_address, c) {
                    return Err(
                        String::from_str("Return address is not a valid ").concat(label).concat(
                            " address",
                        ),
                    );
                }
            },
            None => {},
        }
        Ok(())
    }

    /// What the return address box holds, measured against the expected network.
    pub fn return_address_state(&self) -> (s: ReturnAddressState)
        ensures
            address_state_spec(self@, s),
    {
        let a = trim_str(self.return_address_input.as_str());
        if a.is_empty() {
            return ReturnAddressState::Empty;
        }
        match self.expected_return_chain() {
            Some((c, label)) => {
                if is_address_for_chain(a, c) {
                    ReturnAddressState::Valid(label)
                } else {
                    ReturnAddressState::Invalid(label)
                }
            },
            None => ReturnAddressState::Unknown,
        }
    }

    /// Whether the rescue can be started.
    pub fn can_execute_rescue(&self) -> (r: bool)
        requires
            self.wf(),
        ensures
            r == can_execute_spec(self@),
    {
        if self.config.is_none() {
            return false;
        }
        if !self.mnemonic_ready() {
            return false;
        }
        match self.return_address_state() {
            ReturnAddressState::Valid(_) => true,
            _ => false,
        }
    }

    /// Why the rescue cannot be started yet, if it cannot.
    pub fn execute_blocker_reason(&self) -> (r: Option<String>)
        requires
            self.wf(),
        ensures
            opt_view(r) == blocker_reason_spec(self@),
    {
        if self.config.is_none() {
            return Some(String::from_str("Load provider config to begin"));
        }
        if !self.mnemonic_ready() {
            let mut missing: u64 = 0;
            let mut i: usize = 0;
            while i < self.word_count
                invariant
                    self.wf(),
                    i <= self.word_count,
                    missing as nat == unset_count(self@.locked.take(i as int)),
                    missing <= i,
                decreases self.word_count - i,
            {
                assert(self@.locked.take(i + 1).drop_last() =~= self@.locked.take(i as int));
                if !self.mnemonic_locked[i] {
                    missing = missing + 1;
                }
                i = i + 1;
            }
            let m = decimal_string(missing);
            let n = decimal_string(self.word_count as u64);
            return Some(
                String::from_str("Mnemonic incomplete (").concat(m.as_str()).concat(" of ").concat(
                    n.as_str(),
                ).concat(" words remaining)"),
            );
        }
        match self.return_address_state() {
            ReturnAddressState::Empty => Some(String::from_str("Enter a return address")),
            ReturnAddressState::Invalid(label) => Some(
                String::from_str("Return address must be a valid ").concat(label).concat(
                    " address",
                ),
            ),
            ReturnAddressState::Unknown => Some(
                String::from_str("Could not determine expected return network"),
            ),
            ReturnAddressState::Valid(_) => None,
        }
    }
}

impl SwapRescueApp {
    fn set_word(&mut self, i: usize, w: String)
        requires
            old(self).wf(),
            i < MAX_WORDS,
        ensures
            final(self)@ == (AppModel { words: old(self)@.words.update(i as int, w@), ..old(self)@ }),
    {
        let ghost before = self@;
        self.mnemonic_words.set(i, w);
        assert(self@ =~= (AppModel { words: before.words.update(i as int, w@), ..before }));
    }

    fn set_locked(&mut self, i: usize, b: bool)
        requires
            old(self).wf(),
            i < MAX_WORDS,
        ensures
            final(self)@ == (AppModel { locked: old(self)@.locked.update(i as int, b), ..old(self)@ }),
    {
        let ghost before = self@;
        self.mnemonic_locked.set(i, b);
        assert(self@ =~= (AppModel { locked: before.locked.update(i as int, b), ..before }));
    }

    fn on_config_loaded(&mut self, r: Result<Config, String>)
        ensures
            final(self)@ == after_config_loaded(old(self)@, r),
    {
        let ghost m = self@;
        match r {
            Ok(config) => {
                let p = &config.provider_input;
                let l1 = String::from_str("  Swap ID: ").concat(p.swap_id.as_str());
                let upper = to_uppercase(p.rescue_type.as_str());
                let l2 = String::from_str("  Type: ").concat(upper.as_str());
                let to = if p.to_network_str.as_str().is_empty() {
                    String::from_str("(n/a)")
                } else {
                    p.to_network_str.clone()
                };
                let l3 = String::from_str("  Direction: ").concat(p.from_network_str.as_str()).concat(
                    " → ",
                ).concat(to.as_str());
                self.append_log(String::from_str("✓ Provider config loaded"));
                self.append_log(l1);
                self.append_log(l2);
                self.append_log(l3);
                self.config = Some(config);
                self.state = AppState::ConfigLoaded;
                self.error_message = None;
                assert(self@ =~= after_config_loaded(m, r));
            },
            Err(e) => {
                self.append_log(String::from_str("✗ Error loading config: ").concat(e.as_str()));
                self.error_message = Some(e);
                self.state = AppState::Error;
                assert(self@ =~= after_config_loaded(m, r));
            },
        }
    }

    fn lock_and_advance(&mut self, idx: usize) -> (e: Effect)
        requires
            old(self).wf(),
            idx < old(self)@.word_count,
        ensures
            final(self).wf(),
            final(self)@ == after_lock(old(self)@, idx),
            match lock_focus(old(self)@, idx) {
                Some(i) => e == Effect::FocusWord(i),
                None => e == Effect::Nothing,
            },
    {
        let ghost m = self@;
        let next = idx + 1;
        let e = if next < self.word_count {
            self.focused_word = Some(next);
            Effect::FocusWord(next)
        } else {
            self.focused_word = None;
            Effect::Nothing
        };
        self.fold_when_complete();
        assert(self@ =~= after_lock(m, idx));
        e
    }

    fn fold_when_complete(&mut self)
        requires
            old(self).wf(),
        ensures
            final(self).wf(),
            final(self)@ == fold_if_complete(old(self)@),
    {
        let ghost m = self@;
        if self.all_words_locked() {
            self.mnemonic_expanded = false;
        }
        assert(self@ =~= fold_if_complete(m));
    }

    fn on_word_changed(&mut self, idx: usize, raw: String) -> (e: Effect)
        requires
            old(self).wf(),
            box_open(old(self)@, idx),
        ensures
            final(self).wf(),
            has_white_space(raw@) ==> final(self)@ == after_paste(old(self)@, idx, raw@) && e
                == Effect::FocusWord(focus_after_paste(old(self)@, idx, raw@)),
            !has_white_space(raw@) ==> final(self)@ == after_typed(old(self)@, idx, raw@) && match (
                if lowercase(raw@).len() > 0 && is_bip39_word_spec(lowercase(raw@)) {
                    lock_focus(old(self)@, idx)
                } else {
                    None
                }) {
                Some(i) => e == Effect::FocusWord(i),
                None => e == Effect::Nothing,
            },
    {
        let ghost m = self@;
        self.focused_word = Some(idx);
        if contains_white_space(raw.as_str()) {
            let parts = split_whitespace_str(raw.as_str());
            let ghost ws = pasted_words(raw@);
            assert(ws.len() == parts@.len());
            if parts.len() >= 24 && self.word_count < 24 {
                self.word_count = 24;
            }
            let wc = self.word_count;
            assert(wc == word_count_after_paste(m, ws.len()));
            let room = wc - idx;
            let k = if parts.len() <= room {
                parts.len()
            } else {
                room
            };
            assert(k == pasted_count(m, idx, raw@));
            let mut offset: usize = 0;
            while offset < k
                invariant
                    self.wf(),
                    self.word_count == wc,
                    idx < wc,
                    k <= parts@.len(),
                    idx + k <= wc,
                    offset <= k,
                    ws == pasted_words(raw@),
                    parts@.map_values(|t: &str| t@) == tokens(raw@),
                    self@ == (AppModel {
                        word_count: wc,
                        focused_word: Some(idx),
                        words: Seq::new(
                            MAX_WORDS as nat,
                            |i: int|
                                if idx <= i < idx + offset {
                                    ws[i - idx]
                                } else {
                                    m.words[i]
                                },
                        ),
                        locked: Seq::new(
                            MAX_WORDS as nat,
                            |i: int|
                                if idx <= i < idx + offset {
                                    is_bip39_word_spec(ws[i - idx])
                                } else {
                                    m.locked[i]
                                },
                        ),
                        ..m
                    }),
                decreases k - offset,
            {
                let i = idx + offset;
                let w = to_lowercase(parts[offset]);
                assert(w@ == ws[offset as int]);
                let locked = is_bip39_word(w.as_str());
                self.set_word(i, w);
                self.set_locked(i, locked);
                offset = offset + 1;
                assert(self@.words =~= Seq::new(
                    MAX_WORDS as nat,
                    |j: int|
                        if idx <= j < idx + offset {
                            ws[j - idx]
                        } else {
                            m.words[j]
                        },
                ));
                assert(self@.locked =~= Seq::new(
                    MAX_WORDS as nat,
                    |j: int|
                        if idx <= j < idx + offset {
                            is_bip39_word_spec(ws[j - idx])
                        } else {
                            m.locked[j]
                        },
                ));
            }
            let last = if k > 0 {
                idx + k - 1
            } else {
                idx
            };
            let next = if last + 1 < wc - 1 {
                last + 1
            } else {
                wc - 1
            };
            self.focused_word = Some(next);
            self.fold_when_complete();
            assert(self@ =~= after_paste(m, idx, raw@));
            return Effect::FocusWord(next);
        }
        let value = to_lowercase(raw.as_str());
        let is_word = !value.as_str().is_empty() && is_bip39_word(value.as_str());
        self.set_word(idx, value);
        if is_word {
            self.set_locked(idx, true);
            let e = self.lock_and_advance(idx);
            assert(self@ =~= after_typed(m, idx, raw@));
            e
        } else {
            assert(self@ =~= after_typed(m, idx, raw@));
            Effect::Nothing
        }
    }
}

impl SwapRescueApp {
    fn on_word_picked(&mut self, idx: usize, word: String) -> (e: Effect)
        requires
            old(self).wf(),
        ensures
            final(self).wf(),
            final(self)@ == after_word_picked(old(self)@, idx, word@),
            match (if box_open(old(self)@, idx) {
                lock_focus(old(self)@, idx)
            } else {
                None
            }) {
                Some(i) => e == Effect::FocusWord(i),
                None => e == Effect::Nothing,
            },
    {
        if idx >= self.word_count || self.mnemonic_locked[idx] {
            return Effect::Nothing;
        }
        self.set_word(idx, word);
        self.set_locked(idx, true);
        self.lock_and_advance(idx)
    }

    fn on_word_edit(&mut self, idx: usize) -> (e: Effect)
        requires
            old(self).wf(),
        ensures
            final(self).wf(),
            final(self)@ == after_word_edit(old(self)@, idx),
            if idx < old(self)@.word_count {
                e == Effect::FocusWord(idx)
            } else {
                e == Effect::Nothing
            },
    {
        let ghost m = self@;
        if idx < self.word_count {
            self.set_locked(idx, false);
            self.focused_word = Some(idx);
            self.mnemonic_expanded = true;
            assert(self@ =~= after_word_edit(m, idx));
            return Effect::FocusWord(idx);
        }
        Effect::Nothing
    }

    fn on_set_word_count(&mut self, count: usize)
        requires
            old(self).wf(),
        ensures
            final(self).wf(),
            final(self)@ == after_set_word_count(old(self)@, count),
    {
        let ghost m = self@;
        if count == 12 || count == 24 {
            self.word_count = count;
            let mut i: usize = count;
            while i < MAX_WORDS
                invariant
                    self.wf(),
                    self.word_count == count,
                    count <= i <= MAX_WORDS,
                    self@ == (AppModel {
                        word_count: count,
                        words: Seq::new(
                            MAX_WORDS as nat,
                            |j: int|
                                if count <= j < i {
                                    Seq::empty()
                                } else {
                                    m.words[j]
                                },
                        ),
                        locked: Seq::new(
                            MAX_WORDS as nat,
                            |j: int|
                                if count <= j < i {
                                    false
                                } else {
                                    m.locked[j]
                                },
                        ),
                        ..m
                    }),
                decreases MAX_WORDS - i,
            {
                self.set_word(i, String::new());
                self.set_locked(i, false);
                i = i + 1;
                assert(self@.words =~= Seq::new(
                    MAX_WORDS as nat,
                    |j: int|
                        if count <= j < i {
                            Seq::empty()
                        } else {
                            m.words[j]
                        },
                ));
                assert(self@.locked =~= Seq::new(
                    MAX_WORDS as nat,
                    |j: int|
                        if count <= j < i {
                            false
                        } else {
                            m.locked[j]
                        },
                ));
            }
            assert(self@ =~= after_set_word_count(m, count));
        }
    }

    fn typed_index_value(v: &str, blank_value: u64, current: u64) -> (r: u64)
        ensures
            r == typed_index(v@, blank_value, current),
    {
        if trim_str(v).is_empty() {
            blank_value
        } else {
            match parse_u64(v) {
                Some(x) => x,
                None => current,
            }
        }
    }

    fn on_toggle_auto(&mut self, enabled: bool)
        ensures
            final(self)@ == after_toggle_auto(old(self)@, enabled),
    {
        let ghost m = self@;
        self.auto_increment = enabled;
        if enabled {
            self.swap_index_override = 0;
        }
        let line = if enabled {
            String::from_str("Auto-increment enabled (starting at 0)")
        } else {
            String::from_str("Auto-increment disabled")
        };
        self.append_log(line);
        assert(self@ =~= after_toggle_auto(m, enabled));
    }

    fn on_execute(&mut self) -> (e: Effect)
        requires
            old(self).wf(),
        ensures
            final(self).wf(),
            final(self)@ == after_execute(old(self)@),
            effect_of(old(self)@, Message::ExecuteRescue, e),
    {
        let ghost m = self@;
        let config = match &self.config {
            Some(c) => c.clone(),
            None => {
                return Effect::Nothing;
            },
        };
        let mnemonic = self.collected_mnemonic();
        let passphrase = self.passphrase_input.clone();
        let return_address = String::from_str(trim_str(self.return_address_input.as_str()));
        let swap_index = self.swap_index_override;
        match self.validate_user_input(mnemonic.as_str(), return_address.as_str()) {
            Err(e) => {
                self.append_log(String::from_str("✗ ").concat(e.as_str()));
                self.error_message = Some(e);
                self.state = AppState::Error;
                assert(self@ =~= after_execute(m));
                return Effect::Nothing;
            },
            Ok(()) => {},
        }
        self.state = AppState::Executing;
        self.append_log(String::from_str("Starting rescue operation..."));
        let index_text = decimal_string(swap_index);
        self.append_log(String::from_str("Using swap index: ").concat(index_text.as_str()));
        self.append_log(String::from_str("Connecting to Electrum servers..."));
        self.append_log(String::from_str("Building swap script..."));
        assert(self@ =~= after_execute(m));
        Effect::RunRescue(
            RescueRequest { config, mnemonic, passphrase, return_address, swap_index },
        )
    }

    fn on_rescue_completed(&mut self, r: Result<RescueSummary, String>) -> (e: Effect)
        ensures
            final(self)@ == after_rescue_completed(old(self)@, r),
            if r is Err && retries(old(self)@) {
                e == Effect::RetryRescue
            } else {
                e == Effect::Nothing
            },
    {
        let ghost m = self@;
        match r {
            Ok(summary) => {
                let amount = decimal_string(summary.amount);
                let upper = to_uppercase(summary.rescue_type.as_str());
                self.append_log(String::from_str("✓ Transaction constructed successfully"));
                self.append_log(String::new());
                self.append_log(String::from_str("=== Transaction Summary ==="));
                self.append_log(String::from_str("Amount: ").concat(amount.as_str()).concat(" sats"));
                self.append_log(
                    String::from_str("Return Address: ").concat(summary.return_address.as_str()),
                );
                self.append_log(String::from_str("Network: ").concat(summary.network.as_str()));
                self.append_log(String::from_str("Swap ID: ").concat(summary.swap_id.as_str()));
                self.append_log(String::from_str("Type: ").concat(upper.as_str()));
                self.append_log(String::new());
                self.append_log(String::from_str("⚠ Please review the details above carefully"));
                self.state = AppState::AwaitingConfirmation;
                self.error_message = None;
                assert(self@ =~= after_rescue_completed(m, r));
                Effect::Nothing
            },
            Err(e) => {
                self.append_log(String::from_str("✗ Error: ").concat(e.as_str()));
                if self.auto_increment && self.swap_index_override < self.max_swap_index {
                    self.swap_index_override = self.swap_index_override + 1;
                    let index_text = decimal_string(self.swap_index_override);
                    let max_text = decimal_string(self.max_swap_index);
                    self.append_log(
                        String::from_str("↻ Auto-increment: retrying with swap index ").concat(
                            index_text.as_str(),
                        ).concat(" (max ").concat(max_text.as_str()).concat(")"),
                    );
                    self.error_message = None;
                    assert(self@ =~= after_rescue_completed(m, r));
                    return Effect::RetryRescue;
                }
                if self.auto_increment {
                    let max_text = decimal_string(self.max_swap_index);
                    self.append_log(
                        String::from_str("✗ Auto-increment stopped: reached max index ").concat(
                            max_text.as_str(),
                        ),
                    );
                }
                self.error_message = Some(e);
                self.state = AppState::Error;
                assert(self@ =~= after_rescue_completed(m, r));
                Effect::Nothing
            },
        }
    }

    fn on_broadcast_completed(&mut self, r: Result<String, String>)
        ensures
            final(self)@ == after_broadcast_completed(old(self)@, r),
    {
        let ghost m = self@;
        match r {
            Ok(msg) => {
                self.append_log(String::from_str("✓ Transaction broadcast successfully!"));
                self.append_log(msg);
                self.append_log(String::new());
                self.append_log(String::from_str("=== COMPLETED ==="));
                self.state = AppState::Completed;
                assert(self@ =~= after_broadcast_completed(m, r));
            },
            Err(e) => {
                self.append_log(String::from_str("✗ Broadcast error: ").concat(e.as_str()));
                self.error_message = Some(e);
                self.state = AppState::Error;
                assert(self@ =~= after_broadcast_completed(m, r));
            },
        }
    }
}

impl SwapRescueApp {
    /// Applies event `message` to the window and returns the outside work it
    /// asks for.
    pub fn update(&mut self, message: Message) -> (e: Effect)
        requires
            old(self).wf(),
        ensures
            final(self).wf(),
            final(self)@ == next_model(old(self)@, message),
            effect_of(old(self)@, message, e),
    {
        let ghost m = self@;
        match message {
            Message::LoadConfig => {
                self.append_log(String::from_str("Opening file picker..."));
                Effect::PickConfigFile
            },
            Message::ConfigLoaded(r) => {
                self.on_config_loaded(r);
                Effect::Nothing
            },
            Message::MnemonicWordChanged(idx, raw) => {
                if idx >= self.word_count || self.mnemonic_locked[idx] {
                    return Effect::Nothing;
                }
                self.on_word_changed(idx, raw)
            },
            Message::MnemonicWordPicked(idx, word) => self.on_word_picked(idx, word),
            Message::MnemonicWordEdit(idx) => self.on_word_edit(idx),
            Message::ToggleMnemonicVisibility => {
                self.mnemonic_visible = !self.mnemonic_visible;
                assert(self@ =~= next_model(m, message));
                Effect::Nothing
            },
            Message::SetMnemonicExpanded(expanded) => {
                self.mnemonic_expanded = expanded;
                assert(self@ =~= next_model(m, message));
                Effect::Nothing
            },
            Message::SetWordCount(count) => {
                self.on_set_word_count(count);
                Effect::Nothing
            },
            Message::PassphraseChanged(value) => {
                self.passphrase_input = value;
                assert(self@ =~= next_model(m, message));
                Effect::Nothing
            },
            Message::ReturnAddressChanged(value) => {
                self.return_address_input = value;
                assert(self@ =~= next_model(m, message));
                Effect::Nothing
            },
            Message::SwapIndexChanged(value) => {
                self.swap_index_override = Self::typed_index_value(
                    value.as_str(),
                    0,
                    self.swap_index_override,
                );
                assert(self@ =~= next_model(m, message));
                Effect::Nothing
            },
            Message::ToggleAutoIncrement(enabled) => {
                self.on_toggle_auto(enabled);
                Effect::Nothing
            },
            Message::MaxSwapIndexChanged(value) => {
                self.max_swap_index = Self::typed_index_value(
                    value.as_str(),
                    DEFAULT_MAX_SWAP_INDEX,
                    self.max_swap_index,
                );
                self.max_swap_index_input = value;
                assert(self@ =~= next_model(m, message));
                Effect::Nothing
            },
            Message::ClearLogs => {
                self.logs = Vec::new();
                assert(self@ =~= next_model(m, message));
                Effect::Nothing
            },
            Message::CopyLogs => {
                if self.logs.len() == 0 {
                    return Effect::Nothing;
                }
                let content = join_strings(&self.logs, "\n");
                self.append_log(String::from_str("✓ Logs copied to clipboard"));
                Effect::WriteClipboard(content)
            },
            Message::SaveLogs => {
                if self.logs.len() == 0 {
                    return Effect::Nothing;
                }
                Effect::SaveLogs(join_strings(&self.logs, "\n"))
            },
            Message::LogsSaved(r) => {
                match r {
                    Ok(path) => self.append_log(
                        String::from_str("✓ Logs saved to ").concat(path.as_str()),
                    ),
                    Err(e) => self.append_log(String::from_str("✗ Save failed: ").concat(e.as_str())),
                }
                Effect::Nothing
            },
            Message::ExecuteRescue => self.on_execute(),
            Message::RescueCompleted(r) => self.on_rescue_completed(r),
            Message::ConfirmBroadcast => {
                self.state = AppState::Broadcasting;
                self.append_log(String::new());
                self.append_log(String::from_str("Broadcasting transaction to network..."));
                assert(self@ =~= next_model(m, message));
                Effect::Broadcast
            },
            Message::CancelBroadcast => {
                self.append_log(String::new());
                self.append_log(String::from_str("✗ Broadcast cancelled by user"));
                self.state = AppState::ConfigLoaded;
                assert(self@ =~= next_model(m, message));
                Effect::DiscardTransaction
            },
            Message::BroadcastCompleted(r) => {
                self.on_broadcast_completed(r);
                Effect::Nothing
            },
        }
    }
}

impl SwapRescueApp {
    /// Where the rescue workflow stands.
    pub fn state(&self) -> (r: AppState)
        ensures
            r == self@.state,
    {
        self.state
    }

    /// The loaded provider config, if any.
    pub fn config(&self) -> (r: &Option<Config>)
        ensures
            *r == self@.config,
    {
        &self.config
    }

    /// The log lines, oldest first.
    pub fn logs(&self) -> (r: &Vec<String>)
        ensures
            strings_view(r@) == self@.logs,
    {
        &self.logs
    }

    /// The message of the last error, if the workflow stopped on one.
    pub fn error_message(&self) -> (r: &Option<String>)
        ensures
            opt_view(*r) == self@.error_message,
    {
        &self.error_message
    }

    /// The text of word box `i`.
    pub fn word(&self, i: usize) -> (r: &str)
        requires
            self.wf(),
            i < MAX_WORDS,
        ensures
            r@ == self@.words[i as int],
    {
        self.mnemonic_words[i].as_str()
    }

    /// Whether word box `i` is locked.
    pub fn is_locked(&self, i: usize) -> (r: bool)
        requires
            self.wf(),
            i < MAX_WORDS,
        ensures
            r == self@.locked[i as int],
    {
        self.mnemonic_locked[i]
    }

    /// Whether the words are shown in clear.
    pub fn mnemonic_visible(&self) -> (r: bool)
        ensures
            r == self@.visible,
    {
        self.mnemonic_visible
    }

    /// Whether the mnemonic block is unfolded.
    pub fn mnemonic_expanded(&self) -> (r: bool)
        ensures
            r == self@.expanded,
    {
        self.mnemonic_expanded
    }

    /// How many words the mnemonic has.
    pub fn word_count(&self) -> (r: usize)
        ensures
            r == self@.word_count,
    {
        self.word_count
    }

    /// The word box that has the focus, if any.
    pub fn focused_word(&self) -> (r: Option<usize>)
        ensures
            r == self@.focused_word,
    {
        self.focused_word
    }

    /// The passphrase as typed.
    pub fn passphrase(&self) -> (r: &str)
        ensures
            r@ == self@.passphrase,
    {
        self.passphrase_input.as_str()
    }

    /// The return address as typed.
    pub fn return_address_input(&self) -> (r: &str)
        ensures
            r@ == self@.return_address,
    {
        self.return_address_input.as_str()
    }

    /// The swap index the next rescue uses.
    pub fn swap_index(&self) -> (r: u64)
        ensures
            r == self@.swap_index,
    {
        self.swap_index_override
    }

    /// Whether failed rescues are retried with the next swap index.
    pub fn auto_increment(&self) -> (r: bool)
        ensures
            r == self@.auto_increment,
    {
        self.auto_increment
    }

    /// The highest swap index an auto-incrementing retry reaches.
    pub fn max_swap_index(&self) -> (r: u64)
        ensures
            r == self@.max_swap_index,
    {
        self.max_swap_index
    }

    /// The maximum swap index as typed.
    pub fn max_swap_index_input(&self) -> (r: &str)
        ensures
            r@ == self@.max_swap_index_input,
    {
        self.max_swap_index_input.as_str()
    }
}

impl Default for SwapRescueApp {
    fn default() -> (app: Self)
        ensures
            app.wf(),
            initial_model(app@),
    {
        SwapRescueApp::new()
    }
}

} // verus!
