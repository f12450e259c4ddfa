//! The English BIP39 word list: membership and prefix suggestions.

use vstd::prelude::*;
use crate::text::{has_prefix, starts_with_str, str_eq};

verus! {

/// Number of words in a BIP39 word list.
pub const BIP39_WORD_COUNT: usize = 2048;

/// Most suggestions offered for one partly typed word.
pub const MAX_SUGGESTIONS: usize = 6;

/// Entry `i` of `bip39::Language::English.word_list()`.
pub uninterp spec fn bip39_english_word(i: int) -> Seq<char>;

/// Reads entry `i` of `bip39::Language::English.word_list()`, a
/// `&'static [&'static str; 2048]`. Trusted: the result is named
/// `bip39_english_word(i)`; the index is in range, so the read cannot panic.
#[verifier::external_body]
fn english_word(i: usize) -> (w: &'static str)
    requires
        i < BIP39_WORD_COUNT,
    ensures
        w@ == bip39_english_word(i as int),
{
    bip39::Language::English.word_list()[i]
}

/// The English BIP39 word list, in its own order.
pub open spec fn english_word_list() -> Seq<Seq<char>> {
    Seq::new(BIP39_WORD_COUNT as nat, |i: int| bip39_english_word(i))
}

/// `w` is one of the English BIP39 words.
pub open spec fn is_bip39_word_spec(w: Seq<char>) -> bool {
    english_word_list().contains(w)
}

/// Whether `w` is one of the English BIP39 words.
pub fn is_bip39_word(w: &str) -> (r: bool)
    ensures
        r == is_bip39_word_spec(w@),
{
    let mut i: usize = 0;
    while i < BIP39_WORD_COUNT
        invariant
            i <= BIP39_WORD_COUNT,
            forall|k: int| 0 <= k < i ==> english_word_list()[k] != w@,
        decreases BIP39_WORD_COUNT - i,
    {
        let candidate = english_word(i);
        if str_eq(candidate, w) {
            assert(english_word_list()[i as int] == w@);
            return true;
        }
        i = i + 1;
    }
    false
}

/// The words of `words` that start with `p`, in their order.
pub open spec fn words_with_prefix(words: Seq<Seq<char>>, p: Seq<char>) -> Seq<Seq<char>>
    decreases words.len(),
{
    if words.len() == 0 {
        Seq::empty()
    } else {
        let rest = words_with_prefix(words.drop_last(), p);
        if has_prefix(words.last(), p) {
            rest.push(words.last())
        } else {
            rest
        }
    }
}

/// At most the first `n` entries of `s`.
pub open spec fn at_most<A>(s: Seq<A>, n: nat) -> Seq<A> {
    if s.len() <= n {
        s
    } else {
        s.take(n as int)
    }
}

/// The first (at most six) English BIP39 words that start with `p`.
pub open spec fn suggestions_spec(p: Seq<char>) -> Seq<Seq<char>> {
    at_most(words_with_prefix(english_word_list(), p), MAX_SUGGESTIONS as nat)
}

/// The first English BIP39 words, at most six, that start with `prefix`.
pub fn bip39_suggestions(prefix: &str) -> (r: Vec<String>)
    ensures
        r@.map_values(|s: String| s@) == suggestions_spec(prefix@),
{
    let ghost list = english_word_list();
    let mut out: Vec<String> = Vec::new();
    let mut i: usize = 0;
    while i < BIP39_WORD_COUNT
        invariant
            i <= BIP39_WORD_COUNT,
            list == english_word_list(),
            out@.map_values(|s: String| s@) == at_most(
                words_with_prefix(list.take(i as int), prefix@),
                MAX_SUGGESTIONS as nat,
            ),
        decreases BIP39_WORD_COUNT - i,
    {
        let ghost before = out@.map_values(|s: String| s@);
        let ghost old_matches = words_with_prefix(list.take(i as int), prefix@);
        assert(list.take(i + 1).drop_last() =~= list.take(i as int));
        assert(list.take(i + 1).last() == list[i as int]);
        let w = english_word(i);
        if starts_with_str(w, prefix) {
            assert(words_with_prefix(list.take(i + 1), prefix@) == old_matches.push(w@));
            if out.len() < MAX_SUGGESTIONS {
                out.push(String::from_str(w));
                assert(out@.map_values(|s: String| s@) =~= before.push(w@));
                assert(at_most(old_matches.push(w@), MAX_SUGGESTIONS as nat) =~= before.push(w@));
            } else {
                assert(old_matches.push(w@).take(MAX_SUGGESTIONS as int) =~= old_matches.take(
                    MAX_SUGGESTIONS as int,
                ));
            }
        } else {
            assert(words_with_prefix(list.take(i + 1), prefix@) == old_matches);
        }
        i = i + 1;
    }
    assert(list.take(BIP39_WORD_COUNT as int) =~= list);
    out
}

} // verus!
