//! Text primitives used throughout the rescue workflow: Unicode whitespace,
//! trimming, whitespace tokenisation, joining, and decimal numbers.

use vstd::prelude::*;
use vstd::string::*;

verus! {

/// The Unicode `White_Space` property, the set that `char::is_whitespace`,
/// `str::trim` and `str::split_whitespace` are defined by.
pub open spec fn is_white_space(c: char) -> bool {
    let n = c as u32;
    ||| 0x09 <= n <= 0x0D
    ||| n == 0x20
    ||| n == 0x85
    ||| n == 0xA0
    ||| n == 0x1680
    ||| 0x2000 <= n <= 0x200A
    ||| n == 0x2028
    ||| n == 0x2029
    ||| n == 0x202F
    ||| n == 0x205F
    ||| n == 0x3000
}

/// Whether `c` has the Unicode `White_Space` property.
pub fn char_is_whitespace(c: char) -> (b: bool)
    ensures
        b == is_white_space(c),
{
    let n = c as u32;
    (0x09 <= n && n <= 0x0D) || n == 0x20 || n == 0x85 || n == 0xA0 || n == 0x1680 || (0x2000
        <= n && n <= 0x200A) || n == 0x2028 || n == 0x2029 || n == 0x202F || n == 0x205F || n
        == 0x3000
}


/// Some character of `s` is whitespace.
pub open spec fn has_white_space(s: Seq<char>) -> bool {
    exists|i: int| 0 <= i < s.len() && is_white_space(#[trigger] s[i])
}

/// Whether some character of `s` is whitespace.
pub fn contains_white_space(s: &str) -> (r: bool)
    ensures
        r == has_white_space(s@),
{
    let cs = chars_of(s);
    let mut i: usize = 0;
    while i < cs.len()
        invariant
            i <= cs@.len(),
            cs@ == s@,
            forall|k: int| 0 <= k < i ==> !is_white_space(#[trigger] s@[k]),
        decreases cs@.len() - i,
    {
        if char_is_whitespace(cs[i]) {
            assert(is_white_space(s@[i as int]));
            return true;
        }
        i = i + 1;
    }
    false
}

/// Removes leading whitespace, as `str::trim_start` does.
pub open spec fn trim_start(s: Seq<char>) -> Seq<char>
    decreases s.len(),
{
    if s.len() > 0 && is_white_space(s[0]) {
        trim_start(s.drop_first())
    } else {
        s
    }
}

/// Removes trailing whitespace, as `str::trim_end` does.
pub open spec fn trim_end(s: Seq<char>) -> Seq<char>
    decreases s.len(),
{
    if s.len() > 0 && is_white_space(s.last()) {
        trim_end(s.drop_last())
    } else {
        s
    }
}

/// Leading and trailing whitespace removed, as `str::trim` does.
pub open spec fn trim(s: Seq<char>) -> Seq<char> {
    trim_end(trim_start(s))
}

/// A text with nothing but whitespace in it (`s.trim().is_empty()`).
pub open spec fn is_blank(s: Seq<char>) -> bool {
    trim(s).len() == 0
}

/// The characters of `s`, in order.
pub fn chars_of(s: &str) -> (v: Vec<char>)
    ensures
        v@ == s@,
{
    let n = s.unicode_len();
    let mut v: Vec<char> = Vec::new();
    let mut i: usize = 0;
    while i < n
        invariant
            i <= n,
            n == s@.len(),
            v@ == s@.take(i as int),
        decreases n - i,
    {
        let c = s.get_char(i);
        v.push(c);
        i = i + 1;
        assert(v@ =~= s@.take(i as int));
    }
    assert(v@ =~= s@);
    v
}

/// `s` with leading and trailing whitespace removed.
pub fn trim_str(s: &str) -> (r: &str)
    ensures
        r@ == trim(s@),
{
    let cs = chars_of(s);
    let n = cs.len();
    let mut i: usize = 0;
    assert(s@.subrange(0, n as int) =~= s@);
    while i < n && char_is_whitespace(cs[i])
        invariant
            i <= n,
            n == s@.len(),
            cs@ == s@,
            trim_start(s@) == trim_start(s@.subrange(i as int, n as int)),
        decreases n - i,
    {
        assert(s@.subrange(i as int, n as int).drop_first() =~= s@.subrange(i + 1, n as int));
        i = i + 1;
    }
    assert(trim_start(s@) == s@.subrange(i as int, n as int));
    let mut j: usize = n;
    while j > i && char_is_whitespace(cs[j - 1])
        invariant
            i <= j <= n,
            n == s@.len(),
            cs@ == s@,
            trim(s@) == trim_end(s@.subrange(i as int, j as int)),
        decreases j,
    {
        assert(s@.subrange(i as int, j as int).drop_last() =~= s@.subrange(i as int, j - 1));
        j = j - 1;
    }
    s.substring_char(i, j)
}


/// Index of the first non-whitespace character at or after `i`.
pub open spec fn skip_space(s: Seq<char>, i: int) -> int
    decreases s.len() - i,
{
    if 0 <= i < s.len() && is_white_space(s[i]) {
        skip_space(s, i + 1)
    } else {
        i
    }
}

/// Index just past the run of non-whitespace characters starting at `i`.
pub open spec fn skip_word(s: Seq<char>, i: int) -> int
    decreases s.len() - i,
{
    if 0 <= i < s.len() && !is_white_space(s[i]) {
        skip_word(s, i + 1)
    } else {
        i
    }
}

pub proof fn lemma_skip_space(s: Seq<char>, i: int)
    requires
        0 <= i <= s.len(),
    ensures
        i <= skip_space(s, i) <= s.len(),
        skip_space(s, i) < s.len() ==> !is_white_space(s[skip_space(s, i)]),
        forall|k: int| i <= k < skip_space(s, i) ==> is_white_space(#[trigger] s[k]),
    decreases s.len() - i,
{
    if i < s.len() && is_white_space(s[i]) {
        lemma_skip_space(s, i + 1);
    }
}

pub proof fn lemma_skip_word(s: Seq<char>, i: int)
    requires
        0 <= i <= s.len(),
    ensures
        i <= skip_word(s, i) <= s.len(),
        skip_word(s, i) < s.len() ==> is_white_space(s[skip_word(s, i)]),
        forall|k: int| i <= k < skip_word(s, i) ==> !is_white_space(#[trigger] s[k]),
    decreases s.len() - i,
{
    if i < s.len() && !is_white_space(s[i]) {
        lemma_skip_word(s, i + 1);
    }
}

/// The whitespace-separated words of `s` from index `i` on.
pub open spec fn tokens_from(s: Seq<char>, i: int) -> Seq<Seq<char>>
    decreases s.len() - i,
{
    if 0 <= i <= s.len() {
        let a = skip_space(s, i);
        if a >= s.len() {
            Seq::empty()
        } else {
            let b = skip_word(s, a);
            proof {
                lemma_skip_space(s, i);
                lemma_skip_word(s, a);
                lemma_skip_word(s, a + 1);
            }
            seq![s.subrange(a, b)] + tokens_from(s, b)
        }
    } else {
        Seq::empty()
    }
}

/// The maximal runs of non-whitespace characters of `s`, in order, as
/// `str::split_whitespace` yields them.
pub open spec fn tokens(s: Seq<char>) -> Seq<Seq<char>> {
    tokens_from(s, 0)
}

/// The whitespace-separated words of `s`.
pub fn split_whitespace_str(s: &str) -> (v: Vec<&str>)
    ensures
        v@.map_values(|t: &str| t@) == tokens(s@),
{
    let cs = chars_of(s);
    let n = cs.len();
    let mut out: Vec<&str> = Vec::new();
    let mut i: usize = 0;
    while i < n
        invariant
            i <= n,
            n == s@.len(),
            cs@ == s@,
            tokens(s@) == out@.map_values(|t: &str| t@) + tokens_from(s@, i as int),
        decreases n - i,
    {
        let mut a: usize = i;
        while a < n && char_is_whitespace(cs[a])
            invariant
                i <= a <= n,
                n == s@.len(),
                cs@ == s@,
                skip_space(s@, i as int) == skip_space(s@, a as int),
            decreases n - a,
        {
            a = a + 1;
        }
        if a == n {
            assert(tokens_from(s@, i as int) =~= Seq::<Seq<char>>::empty());
            assert(tokens_from(s@, n as int) =~= Seq::<Seq<char>>::empty());
            i = n;
        } else {
            let mut b: usize = a;
            while b < n && !char_is_whitespace(cs[b])
                invariant
                    a <= b <= n,
                    n == s@.len(),
                    cs@ == s@,
                    skip_word(s@, a as int) == skip_word(s@, b as int),
                decreases n - b,
            {
                b = b + 1;
            }
            proof {
                lemma_skip_word(s@, a as int);
                lemma_skip_word(s@, a + 1);
            }
            let w = s.substring_char(a, b);
            let ghost before = out@;
            out.push(w);
            assert(out@.map_values(|t: &str| t@) =~= before.map_values(|t: &str| t@) + seq![
                s@.subrange(a as int, b as int),
            ]);
            assert(tokens_from(s@, i as int) == seq![s@.subrange(a as int, b as int)]
                + tokens_from(s@, b as int));
            assert(tokens(s@) =~= out@.map_values(|t: &str| t@) + tokens_from(s@, b as int));
            i = b;
        }
    }
    assert(tokens_from(s@, n as int) =~= Seq::<Seq<char>>::empty());
    assert(tokens(s@) =~= out@.map_values(|t: &str| t@));
    out
}


/// A word: not empty, no whitespace in it.
pub open spec fn is_plain_word(w: Seq<char>) -> bool {
    w.len() > 0 && !has_white_space(w)
}

proof fn lemma_skip_space_stays_in_prefix(a: Seq<char>, b: Seq<char>, i: int)
    requires
        0 <= i <= a.len(),
        skip_space(a, i) < a.len(),
    ensures
        skip_space(a + b, i) == skip_space(a, i),
    decreases a.len() - i,
{
    let s = a + b;
    if i < a.len() && is_white_space(a[i]) {
        assert(s[i] == a[i]);
        lemma_skip_space_stays_in_prefix(a, b, i + 1);
    } else {
        assert(s[i] == a[i]);
    }
}

proof fn lemma_skip_space_leaves_prefix(a: Seq<char>, b: Seq<char>, i: int)
    requires
        0 <= i <= a.len(),
        skip_space(a, i) >= a.len(),
    ensures
        skip_space(a + b, i) == skip_space(a + b, a.len() as int),
    decreases a.len() - i,
{
    let s = a + b;
    if i < a.len() {
        assert(s[i] == a[i]);
        lemma_skip_space_leaves_prefix(a, b, i + 1);
    }
}

proof fn lemma_skip_word_in_prefix(a: Seq<char>, b: Seq<char>, i: int)
    requires
        0 <= i <= a.len(),
        b.len() > 0,
        is_white_space(b[0]),
    ensures
        skip_word(a + b, i) == skip_word(a, i),
    decreases a.len() - i,
{
    let s = a + b;
    if i < a.len() {
        assert(s[i] == a[i]);
        if !is_white_space(a[i]) {
            lemma_skip_word_in_prefix(a, b, i + 1);
        }
    } else {
        assert(s[i] == b[0]);
    }
}

proof fn lemma_skip_space_shift(a: Seq<char>, b: Seq<char>, k: int)
    requires
        0 <= k <= b.len(),
    ensures
        skip_space(a + b, a.len() + k) == a.len() + skip_space(b, k),
    decreases b.len() - k,
{
    let s = a + b;
    if k < b.len() {
        assert(s[a.len() + k] == b[k]);
        if is_white_space(b[k]) {
            lemma_skip_space_shift(a, b, k + 1);
        }
    }
}

proof fn lemma_skip_word_shift(a: Seq<char>, b: Seq<char>, k: int)
    requires
        0 <= k <= b.len(),
    ensures
        skip_word(a + b, a.len() + k) == a.len() + skip_word(b, k),
    decreases b.len() - k,
{
    let s = a + b;
    if k < b.len() {
        assert(s[a.len() + k] == b[k]);
        if !is_white_space(b[k]) {
            lemma_skip_word_shift(a, b, k + 1);
        }
    }
}

proof fn lemma_tokens_shift(a: Seq<char>, b: Seq<char>, k: int)
    requires
        0 <= k <= b.len(),
    ensures
        tokens_from(a + b, a.len() + k) == tokens_from(b, k),
    decreases b.len() - k,
{
    let s = a + b;
    let i = a.len() + k;
    lemma_skip_space_shift(a, b, k);
    lemma_skip_space(b, k);
    let q = skip_space(b, k);
    if q < b.len() {
        lemma_skip_word_shift(a, b, q);
        lemma_skip_word(b, q);
        lemma_skip_word(b, q + 1);
        let r = skip_word(b, q);
        assert(s.subrange(a.len() + q, a.len() + r) =~= b.subrange(q, r));
        lemma_tokens_shift(a, b, r);
    }
}

proof fn lemma_tokens_concat_from(a: Seq<char>, b: Seq<char>, i: int)
    requires
        0 <= i <= a.len(),
        b.len() > 0,
        is_white_space(b[0]),
    ensures
        tokens_from(a + b, i) == tokens_from(a, i) + tokens(b),
    decreases a.len() - i,
{
    let s = a + b;
    lemma_skip_space(a, i);
    let q = skip_space(a, i);
    if q < a.len() {
        lemma_skip_space_stays_in_prefix(a, b, i);
        lemma_skip_word_in_prefix(a, b, q);
        lemma_skip_word(a, q);
        lemma_skip_word(a, q + 1);
        let r = skip_word(a, q);
        assert(s.subrange(q, r) =~= a.subrange(q, r));
        lemma_tokens_concat_from(a, b, r);
        assert(tokens_from(s, i) == seq![a.subrange(q, r)] + tokens_from(s, r));
        assert(tokens_from(a, i) == seq![a.subrange(q, r)] + tokens_from(a, r));
        assert(tokens_from(s, i) =~= tokens_from(a, i) + tokens(b));
    } else {
        lemma_skip_space_leaves_prefix(a, b, i);
        lemma_skip_space_shift(a, b, 0);
        lemma_tokens_shift(a, b, 0);
        lemma_skip_space(s, a.len() as int);
        assert(tokens_from(s, i) == tokens_from(s, a.len() as int));
        assert(tokens_from(a, i) =~= Seq::<Seq<char>>::empty());
        assert(tokens_from(s, i) =~= tokens_from(a, i) + tokens(b));
    }
}

/// Splitting `a` followed by text that starts with whitespace gives the words
/// of `a` followed by the words of that text.
pub proof fn lemma_tokens_concat(a: Seq<char>, b: Seq<char>)
    requires
        b.len() > 0,
        is_white_space(b[0]),
    ensures
        tokens(a + b) == tokens(a) + tokens(b),
{
    lemma_tokens_concat_from(a, b, 0);
}

/// A word splits into itself.
pub proof fn lemma_tokens_of_word(w: Seq<char>)
    requires
        is_plain_word(w),
    ensures
        tokens(w) == seq![w],
{
    lemma_skip_space(w, 0);
    lemma_skip_word(w, 0);
    assert(!is_white_space(w[0]));
    assert(skip_space(w, 0) == 0);
    lemma_skip_word(w, 1);
    if skip_word(w, 0) < w.len() {
        assert(is_white_space(w[skip_word(w, 0)]));
    }
    assert(skip_word(w, 0) == w.len());
    assert(w.subrange(0, w.len() as int) =~= w);
    assert(tokens_from(w, w.len() as int) =~= Seq::<Seq<char>>::empty());
    assert(tokens(w) =~= seq![w]);
}

/// Words joined by single spaces split back into the same words.
pub proof fn lemma_tokens_of_joined_words(ws: Seq<Seq<char>>)
    requires
        forall|i: int| 0 <= i < ws.len() ==> is_plain_word(#[trigger] ws[i]),
    ensures
        tokens(join(ws, " "@)) == ws,
    decreases ws.len(),
{
    reveal_strlit(" ");
    if ws.len() == 0 {
        assert(tokens_from(Seq::<char>::empty(), 0) =~= Seq::<Seq<char>>::empty());
    } else if ws.len() == 1 {
        lemma_tokens_of_word(ws[0]);
        assert(tokens(join(ws, " "@)) =~= ws);
    } else {
        let front = ws.drop_last();
        assert forall|i: int| 0 <= i < front.len() implies is_plain_word(#[trigger] front[i]) by {
            assert(front[i] == ws[i]);
        }
        lemma_tokens_of_joined_words(front);
        let tail = " "@ + ws.last();
        assert(tail[0] == ' ');
        assert(is_white_space(' '));
        assert(join(ws, " "@) =~= join(front, " "@) + tail);
        lemma_tokens_concat(join(front, " "@), tail);
        lemma_tokens_of_word(ws.last());
        lemma_tokens_concat(Seq::empty(), tail);
        assert(Seq::<char>::empty() + tail =~= tail);
        assert(" "@ + ws.last() == " "@ + ws.last());
        lemma_tokens_space_word(ws.last());
        assert(tokens(join(ws, " "@)) =~= ws);
    }
}

proof fn lemma_tokens_space_word(w: Seq<char>)
    requires
        is_plain_word(w),
    ensures
        tokens(" "@ + w) == seq![w],
{
    reveal_strlit(" ");
    let s = " "@ + w;
    assert(s[0] == ' ');
    assert(is_white_space(' '));
    lemma_skip_space_shift(" "@, w, 0);
    lemma_skip_space(w, 0);
    assert(!is_white_space(w[0]));
    assert(skip_space(s, 1) == 1);
    assert(skip_space(s, 0) == skip_space(s, 1));
    lemma_tokens_shift(" "@, w, 0);
    lemma_tokens_of_word(w);
    assert(tokens_from(s, 0) == tokens_from(s, 1));
}

/// A word is its own trimmed form.
pub proof fn lemma_trim_word(w: Seq<char>)
    requires
        is_plain_word(w),
    ensures
        trim(w) == w,
{
    assert(!is_white_space(w[0]));
    assert(!is_white_space(w.last()));
    assert(trim_start(w) == w);
    assert(trim_end(w) == w);
}

/// `parts` joined with `sep` between consecutive parts, as `[&str]::join` does.
pub open spec fn join(parts: Seq<Seq<char>>, sep: Seq<char>) -> Seq<char>
    decreases parts.len(),
{
    if parts.len() == 0 {
        Seq::empty()
    } else if parts.len() == 1 {
        parts[0]
    } else {
        join(parts.drop_last(), sep) + sep + parts.last()
    }
}

/// The string slices of `parts` joined with `sep`.
pub fn join_strs(parts: &Vec<&str>, sep: &str) -> (r: String)
    ensures
        r@ == join(parts@.map_values(|t: &str| t@), sep@),
{
    let ghost views = parts@.map_values(|t: &str| t@);
    let mut r = String::new();
    let n = parts.len();
    let mut i: usize = 0;
    while i < n
        invariant
            i <= n,
            n == parts@.len(),
            views == parts@.map_values(|t: &str| t@),
            r@ == join(views.take(i as int), sep@),
        decreases n - i,
    {
        assert(views.take(i + 1).drop_last() =~= views.take(i as int));
        if i != 0 {
            r.append(sep);
        }
        r.append(parts[i]);
        i = i + 1;
    }
    assert(views.take(n as int) =~= views);
    r
}

/// The strings of `parts` joined with `sep`.
pub fn join_strings(parts: &Vec<String>, sep: &str) -> (r: String)
    ensures
        r@ == join(parts@.map_values(|t: String| t@), sep@),
{
    let ghost views = parts@.map_values(|t: String| t@);
    let mut r = String::new();
    let n = parts.len();
    let mut i: usize = 0;
    while i < n
        invariant
            i <= n,
            n == parts@.len(),
            views == parts@.map_values(|t: String| t@),
            r@ == join(views.take(i as int), sep@),
        decreases n - i,
    {
        assert(views.take(i + 1).drop_last() =~= views.take(i as int));
        if i != 0 {
            r.append(sep);
        }
        r.append(parts[i].as_str());
        i = i + 1;
    }
    assert(views.take(n as int) =~= views);
    r
}

/// Whether two texts hold the same characters.
pub fn str_eq(a: &str, b: &str) -> (r: bool)
    ensures
        r == (a@ == b@),
{
    let x = a.to_owned();
    let y = b.to_owned();
    x == y
}

/// `p` is a prefix of `s` (`str::starts_with`).
pub open spec fn has_prefix(s: Seq<char>, p: Seq<char>) -> bool {
    p.len() <= s.len() && s.take(p.len() as int) == p
}

/// Whether `s` starts with `p`.
pub fn starts_with_str(s: &str, p: &str) -> (r: bool)
    ensures
        r == has_prefix(s@, p@),
{
    let sc = chars_of(s);
    let pc = chars_of(p);
    if pc.len() > sc.len() {
        return false;
    }
    let mut i: usize = 0;
    while i < pc.len()
        invariant
            i <= pc@.len() <= sc@.len(),
            sc@ == s@,
            pc@ == p@,
            forall|k: int| 0 <= k < i ==> sc@[k] == pc@[k],
        decreases pc@.len() - i,
    {
        if sc[i] != pc[i] {
            assert(s@.take(p@.len() as int)[i as int] != p@[i as int]);
            return false;
        }
        i = i + 1;
    }
    assert(s@.take(p@.len() as int) =~= p@);
    true
}

/// The character of the decimal digit `d`.
pub open spec fn digit_char(d: nat) -> char {
    if d == 0 {
        '0'
    } else if d == 1 {
        '1'
    } else if d == 2 {
        '2'
    } else if d == 3 {
        '3'
    } else if d == 4 {
        '4'
    } else if d == 5 {
        '5'
    } else if d == 6 {
        '6'
    } else if d == 7 {
        '7'
    } else if d == 8 {
        '8'
    } else {
        '9'
    }
}

/// The decimal representation of `n`, without leading zeros, as `Display`
/// prints unsigned integers.
pub open spec fn decimal(n: nat) -> Seq<char>
    decreases n,
{
    if n < 10 {
        seq![digit_char(n)]
    } else {
        decimal(n / 10) + seq![digit_char(n % 10)]
    }
}

fn digit_str(d: u64) -> (s: &'static str)
    requires
        d < 10,
    ensures
        s@ == seq![digit_char(d as nat)],
{
    proof {
        reveal_strlit("0");
        reveal_strlit("1");
        reveal_strlit("2");
        reveal_strlit("3");
        reveal_strlit("4");
        reveal_strlit("5");
        reveal_strlit("6");
        reveal_strlit("7");
        reveal_strlit("8");
        reveal_strlit("9");
    }
    let s = if d == 0 {
        "0"
    } else if d == 1 {
        "1"
    } else if d == 2 {
        "2"
    } else if d == 3 {
        "3"
    } else if d == 4 {
        "4"
    } else if d == 5 {
        "5"
    } else if d == 6 {
        "6"
    } else if d == 7 {
        "7"
    } else if d == 8 {
        "8"
    } else {
        "9"
    };
    assert(s@ =~= seq![digit_char(d as nat)]);
    s
}

/// The decimal text of `n`.
pub fn decimal_string(n: u64) -> (r: String)
    ensures
        r@ == decimal(n as nat),
    decreases n,
{
    if n < 10 {
        String::from_str(digit_str(n))
    } else {
        let mut r = decimal_string(n / 10);
        r.append(digit_str(n % 10));
        r
    }
}


/// An ASCII decimal digit.
pub open spec fn is_digit(c: char) -> bool {
    48 <= c as u32 <= 57
}

/// The value of the ASCII digit `c`.
pub open spec fn digit_value(c: char) -> nat {
    (c as u32 - 48) as nat
}

/// The number that the digits `ds` spell in base ten.
pub open spec fn digits_value(ds: Seq<char>) -> nat
    decreases ds.len(),
{
    if ds.len() == 0 {
        0
    } else {
        digits_value(ds.drop_last()) * 10 + digit_value(ds.last())
    }
}

/// The digits of an unsigned number: one leading `+` is allowed.
pub open spec fn unsigned_body(s: Seq<char>) -> Seq<char> {
    if s.len() > 0 && s[0] == '+' {
        s.drop_first()
    } else {
        s
    }
}

/// What `str::parse::<u64>` gives: the value of an optional `+` followed by
/// at least one ASCII digit, when it fits in a `u64`; `None` on anything else
/// (surrounding whitespace included).
pub open spec fn parse_u64_spec(s: Seq<char>) -> Option<u64> {
    let ds = unsigned_body(s);
    if ds.len() > 0 && (forall|i: int| 0 <= i < ds.len() ==> is_digit(#[trigger] ds[i]))
        && digits_value(ds) <= u64::MAX {
        Some(digits_value(ds) as u64)
    } else {
        None
    }
}

proof fn lemma_digits_value_grows(ds: Seq<char>, i: int)
    requires
        0 <= i <= ds.len(),
        forall|k: int| 0 <= k < ds.len() ==> is_digit(#[trigger] ds[k]),
    ensures
        digits_value(ds.take(i)) <= digits_value(ds),
    decreases ds.len() - i,
{
    if i < ds.len() {
        lemma_digits_value_grows(ds, i + 1);
        assert(ds.take(i + 1).drop_last() =~= ds.take(i));
    } else {
        assert(ds.take(i) =~= ds);
    }
}

/// Parses a decimal `u64` the way `str::parse::<u64>` does.
pub fn parse_u64(s: &str) -> (r: Option<u64>)
    ensures
        r == parse_u64_spec(s@),
{
    let cs = chars_of(s);
    let n = cs.len();
    let start: usize = if n > 0 && cs[0] == '+' {
        1
    } else {
        0
    };
    let ghost ds = unsigned_body(s@);
    assert(ds =~= s@.subrange(start as int, n as int));
    if start == n {
        return None;
    }
    let mut acc: u64 = 0;
    let mut i: usize = start;
    while i < n
        invariant
            start <= i <= n,
            n == s@.len(),
            cs@ == s@,
            ds == s@.subrange(start as int, n as int),
            ds == unsigned_body(s@),
            forall|k: int| 0 <= k < i - start ==> is_digit(#[trigger] ds[k]),
            acc as nat == digits_value(ds.take(i - start)),
        decreases n - i,
    {
        let c = cs[i];
        let code = c as u32;
        assert(ds[i - start] == c);
        if code < 48 || code > 57 {
            assert(!is_digit(ds[i - start]));
            return None;
        }
        let d = (code - 48) as u64;
        assert(ds.take(i + 1 - start).drop_last() =~= ds.take(i - start));
        assert(ds.take(i + 1 - start).last() == c);
        assert(digits_value(ds.take(i + 1 - start)) == acc * 10 + d);
        if acc > (u64::MAX - d) / 10 {
            assert(acc * 10 + d > u64::MAX);
            proof {
                if forall|k: int| 0 <= k < ds.len() ==> is_digit(#[trigger] ds[k]) {
                    lemma_digits_value_grows(ds, i + 1 - start);
                }
            }
            return None;
        }
        acc = acc * 10 + d;
        i = i + 1;
    }
    assert(ds.take(n - start) =~= ds);
    Some(acc)
}

/// What `str::to_lowercase` returns for the characters `s`: the Unicode
/// lowercase mapping (mostly per character; a few characters, such as the
/// Greek capital sigma, map by their context).
pub uninterp spec fn lowercase(s: Seq<char>) -> Seq<char>;

/// What `str::to_uppercase` returns for the characters `s`: the Unicode
/// uppercase mapping (a character may map to several).
pub uninterp spec fn uppercase(s: Seq<char>) -> Seq<char>;

/// An ASCII character.
pub open spec fn is_ascii_char(c: char) -> bool {
    (c as u32) < 128
}

/// Text made of ASCII characters only.
pub open spec fn is_ascii_text(s: Seq<char>) -> bool {
    forall|i: int| 0 <= i < s.len() ==> is_ascii_char(#[trigger] s[i])
}

/// `A`..`Z` mapped to `a`..`z`, every other character kept.
pub open spec fn ascii_lower_char(c: char) -> char {
    if 65 <= c as u32 <= 90 {
        ((c as u32) + 32) as char
    } else {
        c
    }
}

/// `a`..`z` mapped to `A`..`Z`, every other character kept.
pub open spec fn ascii_upper_char(c: char) -> char {
    if 97 <= c as u32 <= 122 {
        ((c as u32) - 32) as char
    } else {
        c
    }
}

/// `s` with its ASCII letters lowercased (`str::to_ascii_lowercase`).
pub open spec fn ascii_lower(s: Seq<char>) -> Seq<char> {
    s.map_values(|c: char| ascii_lower_char(c))
}

/// `s` with its ASCII letters uppercased (`str::to_ascii_uppercase`).
pub open spec fn ascii_upper(s: Seq<char>) -> Seq<char> {
    s.map_values(|c: char| ascii_upper_char(c))
}

/// Uppercasing ASCII text keeps it ASCII and keeps its lowercase form.
pub proof fn lemma_ascii_upper_same_lower(s: Seq<char>)
    requires
        is_ascii_text(s),
    ensures
        is_ascii_text(ascii_upper(s)),
        ascii_lower(ascii_upper(s)) == ascii_lower(s),
{
    assert forall|i: int| 0 <= i < s.len() implies is_ascii_char(#[trigger] ascii_upper(s)[i])
        && ascii_lower_char(ascii_upper(s)[i]) == ascii_lower_char(s[i]) by {
        let c = s[i];
        if 97 <= c as u32 <= 122 {
            assert((((c as u32) - 32) as char) as u32 == (c as u32) - 32);
        }
    }
    assert(ascii_lower(ascii_upper(s)) =~= ascii_lower(s));
}

/// Lowercasing ASCII text keeps it ASCII, and lowercasing it again changes
/// nothing.
pub proof fn lemma_ascii_lower_same_lower(s: Seq<char>)
    requires
        is_ascii_text(s),
    ensures
        is_ascii_text(ascii_lower(s)),
        ascii_lower(ascii_lower(s)) == ascii_lower(s),
{
    assert forall|i: int| 0 <= i < s.len() implies is_ascii_char(#[trigger] ascii_lower(s)[i])
        && ascii_lower_char(ascii_lower(s)[i]) == ascii_lower(s)[i] by {
        let c = s[i];
        if 65 <= c as u32 <= 90 {
            assert((((c as u32) + 32) as char) as u32 == (c as u32) + 32);
        }
    }
    assert(ascii_lower(ascii_lower(s)) =~= ascii_lower(s));
}

/// `a` and `b` have the same length and whitespace at the same places.
pub open spec fn same_space_pattern(a: Seq<char>, b: Seq<char>) -> bool {
    &&& a.len() == b.len()
    &&& forall|i: int| 0 <= i < a.len() ==> is_white_space(#[trigger] a[i]) == is_white_space(b[i])
}

/// ASCII texts that lowercase alike have whitespace at the same places.
pub proof fn lemma_ascii_case_same_spaces(a: Seq<char>, b: Seq<char>)
    requires
        is_ascii_text(a),
        is_ascii_text(b),
        ascii_lower(a) == ascii_lower(b),
    ensures
        same_space_pattern(a, b),
{
    assert(a.len() == ascii_lower(a).len());
    assert forall|i: int| 0 <= i < a.len() implies is_white_space(#[trigger] a[i]) == is_white_space(
        b[i],
    ) by {
        let x = a[i];
        let y = b[i];
        assert(ascii_lower(a)[i] == ascii_lower_char(x));
        assert(ascii_lower(b)[i] == ascii_lower_char(y));
        assert(is_ascii_char(x) && is_ascii_char(y));
        if 65 <= x as u32 <= 90 {
            assert((((x as u32) + 32) as char) as u32 == (x as u32) + 32);
        }
        if 65 <= y as u32 <= 90 {
            assert((((y as u32) + 32) as char) as u32 == (y as u32) + 32);
        }
    }
}

proof fn lemma_trim_start_same_spaces(a: Seq<char>, b: Seq<char>)
    requires
        same_space_pattern(a, b),
    ensures
        same_space_pattern(trim_start(a), trim_start(b)),
    decreases a.len(),
{
    if a.len() > 0 && is_white_space(a[0]) {
        assert(same_space_pattern(a.drop_first(), b.drop_first())) by {
            assert forall|i: int| 0 <= i < a.drop_first().len() implies is_white_space(
                #[trigger] a.drop_first()[i],
            ) == is_white_space(b.drop_first()[i]) by {
                assert(a.drop_first()[i] == a[i + 1]);
                assert(b.drop_first()[i] == b[i + 1]);
            }
        }
        lemma_trim_start_same_spaces(a.drop_first(), b.drop_first());
    }
}

proof fn lemma_trim_end_same_spaces(a: Seq<char>, b: Seq<char>)
    requires
        same_space_pattern(a, b),
    ensures
        same_space_pattern(trim_end(a), trim_end(b)),
    decreases a.len(),
{
    if a.len() > 0 && is_white_space(a.last()) {
        assert(is_white_space(a[a.len() - 1]) == is_white_space(b[b.len() - 1]));
        assert(same_space_pattern(a.drop_last(), b.drop_last())) by {
            assert forall|i: int| 0 <= i < a.drop_last().len() implies is_white_space(
                #[trigger] a.drop_last()[i],
            ) == is_white_space(b.drop_last()[i]) by {
                assert(a.drop_last()[i] == a[i]);
                assert(b.drop_last()[i] == b[i]);
            }
        }
        lemma_trim_end_same_spaces(a.drop_last(), b.drop_last());
    } else if a.len() > 0 {
        assert(is_white_space(a[a.len() - 1]) == is_white_space(b[b.len() - 1]));
    }
}

/// Whether a text is blank depends only on where its whitespace is.
pub proof fn lemma_blank_same_spaces(a: Seq<char>, b: Seq<char>)
    requires
        same_space_pattern(a, b),
    ensures
        is_blank(a) == is_blank(b),
{
    lemma_trim_start_same_spaces(a, b);
    lemma_trim_end_same_spaces(trim_start(a), trim_start(b));
}

/// Calls `str::to_lowercase`. Trusted: the result is named `lowercase` of the
/// argument's characters; for ASCII text it is the ASCII lowercasing, as the
/// Unicode lowercase mapping of `A`..`Z` is `a`..`z` and leaves the other
/// ASCII characters alone.
#[verifier::external_body]
pub(crate) fn to_lowercase(s: &str) -> (r: String)
    ensures
        r@ == lowercase(s@),
        is_ascii_text(s@) ==> r@ == ascii_lower(s@),
{
    s.to_lowercase()
}

/// Calls `str::to_uppercase`. Trusted: the result is named `uppercase` of the
/// argument's characters; for ASCII text it is the ASCII uppercasing, as the
/// Unicode uppercase mapping of `a`..`z` is `A`..`Z` and leaves the other
/// ASCII characters alone.
#[verifier::external_body]
pub(crate) fn to_uppercase(s: &str) -> (r: String)
    ensures
        r@ == uppercase(s@),
        is_ascii_text(s@) ==> r@ == ascii_upper(s@),
{
    s.to_uppercase()
}

} // verus!
