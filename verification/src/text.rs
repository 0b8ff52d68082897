//! Character-level rules shared by the indexing and query sides: ASCII
//! lowercasing, whitespace tokenization of query input, and the word /
//! word-prefix matching discipline used by title search.
//!
//! A "word" of an indexed title is a maximal run of lowercase ASCII letters
//! and digits; queries match whole words exactly, except for the final query
//! token, which matches as a prefix of a word.

use vstd::prelude::*;

verus! {

/// Lowercase ASCII letters and digits: the characters that form an indexed
/// word of a title.
pub open spec fn is_word_char(c: char) -> bool {
    ('a' <= c && c <= 'z') || ('0' <= c && c <= '9')
}

/// Whitespace for query tokenization.
pub open spec fn is_space_char(c: char) -> bool {
    c == ' ' || c == '\t' || c == '\n' || c == '\r'
}

/// ASCII lowercasing of a single character; anything outside 'A'..='Z' is
/// left unchanged.
pub open spec fn lower_char(c: char) -> char {
    if 'A' <= c && c <= 'Z' {
        (((c as u32) + 32) as char)
    } else {
        c
    }
}

/// ASCII lowercasing of a character sequence.
pub open spec fn lower_seq(s: Seq<char>) -> Seq<char> {
    s.map_values(|c: char| lower_char(c))
}

/// Length of the leading run of non-whitespace characters.
pub open spec fn non_space_run_len(s: Seq<char>) -> nat
    decreases s.len(),
{
    if s.len() == 0 || is_space_char(s[0]) {
        0
    } else {
        1 + non_space_run_len(s.skip(1))
    }
}

/// The whitespace-separated tokens of a character sequence, in order.
pub open spec fn tokens_of(s: Seq<char>) -> Seq<Seq<char>>
    decreases s.len(),
    via tokens_of_decreases
{
    if s.len() == 0 {
        Seq::empty()
    } else if is_space_char(s[0]) {
        tokens_of(s.skip(1))
    } else {
        seq![s.take(non_space_run_len(s) as int)] + tokens_of(s.skip(non_space_run_len(s) as int))
    }
}

#[via_fn]
proof fn tokens_of_decreases(s: Seq<char>) {
    if s.len() != 0 && !is_space_char(s[0]) {
        lemma_non_space_run_len_le(s);
        assert(non_space_run_len(s) == 1 + non_space_run_len(s.skip(1)));
        assert(s.skip(non_space_run_len(s) as int).len() < s.len());
    }
}

/// The leading non-whitespace run never extends past the end.
proof fn lemma_non_space_run_len_le(s: Seq<char>)
    ensures
        non_space_run_len(s) <= s.len(),
    decreases s.len(),
{
    if s.len() != 0 && !is_space_char(s[0]) {
        lemma_non_space_run_len_le(s.skip(1));
    }
}

/// The views of a vector of owned tokens.
pub open spec fn token_views(v: Seq<String>) -> Seq<Seq<char>> {
    v.map_values(|t: String| t@)
}

/// `w` occurs in `t` as a whole word: the occurrence starts and ends at a
/// word boundary.
pub open spec fn has_word(t: Seq<char>, w: Seq<char>) -> bool {
    exists|i: int|
        0 <= i && i + w.len() <= t.len() && #[trigger] t.subrange(i, i + w.len()) == w && (i == 0
            || !is_word_char(t[i - 1])) && (i + w.len() == t.len() || !is_word_char(
            t[i + w.len()],
        ))
}

/// `w` occurs in `t` starting at a word boundary: `w` is a prefix of some
/// word of `t`.
pub open spec fn has_word_prefix(t: Seq<char>, w: Seq<char>) -> bool {
    exists|i: int|
        0 <= i && i + w.len() <= t.len() && #[trigger] t.subrange(i, i + w.len()) == w && (i == 0
            || !is_word_char(t[i - 1]))
}

/// A usable query token: non-empty and made of word characters only.
pub open spec fn is_word_token(w: Seq<char>) -> bool {
    w.len() >= 1 && (forall|k: int| 0 <= k < w.len() ==> is_word_char(#[trigger] w[k]))
}

/// A well-formed token list: at least one token, each a word token.
pub open spec fn tokens_ok(ts: Seq<Seq<char>>) -> bool {
    ts.len() >= 1 && (forall|j: int| 0 <= j < ts.len() ==> is_word_token(#[trigger] ts[j]))
}

/// The type-ahead matching rule: every token but the last occurs in the
/// title as a whole word, and the last token is a prefix of some word.
pub open spec fn prefix_match(ts: Seq<Seq<char>>, title: Seq<char>) -> bool {
    ts.len() >= 1 && (forall|j: int| 0 <= j < ts.len() - 1 ==> has_word(title, #[trigger] ts[j]))
        && has_word_prefix(title, ts[ts.len() - 1])
}

/// A run of 40 word characters starts at position `i` of `t`.
pub open spec fn long_word_run_at(t: Seq<char>, i: int) -> bool {
    0 <= i && i + 40 <= t.len() && (forall|k: int|
        i <= k < i + 40 ==> is_word_char(#[trigger] t[k]))
}

/// A title whose word structure the matching rule describes exactly:
/// ASCII without uppercase letters, and no run of 40 or more word
/// characters (the index drops overlong words).
pub open spec fn simple_title(t: Seq<char>) -> bool {
    (forall|k: int|
        0 <= k < t.len() ==> (((#[trigger] t[k]) as u32) < 128 && !('A' <= t[k] && t[k] <= 'Z')))
        && !(exists|i: int| #[trigger] long_word_run_at(t, i))
}

/// A regex pattern asking for a word prefix: it ends in `.*`.
pub open spec fn is_prefix_pattern(p: Seq<char>) -> bool {
    p.len() >= 2 && p[p.len() - 2] == '.' && p[p.len() - 1] == '*'
}

/// The token part of a prefix pattern.
pub open spec fn pattern_stem(p: Seq<char>) -> Seq<char> {
    p.take(p.len() - 2)
}

/// A pattern built from a word token, either plain or with a `.*` suffix.
pub open spec fn pattern_ok(p: Seq<char>) -> bool {
    if is_prefix_pattern(p) {
        is_word_token(pattern_stem(p))
    } else {
        is_word_token(p)
    }
}

/// A well-formed pattern list.
pub open spec fn patterns_ok(ps: Seq<Seq<char>>) -> bool {
    ps.len() >= 1 && (forall|j: int| 0 <= j < ps.len() ==> pattern_ok(#[trigger] ps[j]))
}

/// What one pattern asks of a title: a whole word for a plain pattern, a
/// word prefix for a `.*` pattern.
pub open spec fn pattern_selects(p: Seq<char>, title: Seq<char>) -> bool {
    if is_prefix_pattern(p) {
        has_word_prefix(title, pattern_stem(p))
    } else {
        has_word(title, p)
    }
}

/// A title satisfies every pattern of the query.
pub open spec fn title_selected(ps: Seq<Seq<char>>, title: Seq<char>) -> bool {
    forall|j: int| 0 <= j < ps.len() ==> pattern_selects(#[trigger] ps[j], title)
}

fn is_space_exec(c: char) -> (r: bool)
    ensures
        r == is_space_char(c),
{
    c == ' ' || c == '\t' || c == '\n' || c == '\r'
}

/// One character of `s`, ASCII-lowercased, as a borrowed one-character
/// string slice.
fn lower_char_str<'a>(s: &'a str, i: usize) -> (r: &'a str)
    requires
        i < s@.len(),
        i < usize::MAX,
    ensures
        r@ =~= seq![lower_char(s@[i as int])],
{
    let c = s.get_char(i);
    if 'A' <= c && c <= 'Z' {
        let l = match c {
            'A' => "a",
            'B' => "b",
            'C' => "c",
            'D' => "d",
            'E' => "e",
            'F' => "f",
            'G' => "g",
            'H' => "h",
            'I' => "i",
            'J' => "j",
            'K' => "k",
            'L' => "l",
            'M' => "m",
            'N' => "n",
            'O' => "o",
            'P' => "p",
            'Q' => "q",
            'R' => "r",
            'S' => "s",
            'T' => "t",
            'U' => "u",
            'V' => "v",
            'W' => "w",
            'X' => "x",
            'Y' => "y",
            _ => "z",
        };
        proof {
            reveal_strlit("a");
            reveal_strlit("b");
            reveal_strlit("c");
            reveal_strlit("d");
            reveal_strlit("e");
            reveal_strlit("f");
            reveal_strlit("g");
            reveal_strlit("h");
            reveal_strlit("i");
            reveal_strlit("j");
            reveal_strlit("k");
            reveal_strlit("l");
            reveal_strlit("m");
            reveal_strlit("n");
            reveal_strlit("o");
            reveal_strlit("p");
            reveal_strlit("q");
            reveal_strlit("r");
            reveal_strlit("s");
            reveal_strlit("t");
            reveal_strlit("u");
            reveal_strlit("v");
            reveal_strlit("w");
            reveal_strlit("x");
            reveal_strlit("y");
            reveal_strlit("z");
        }
        l
    } else {
        let r = s.substring_char(i, i + 1);
        proof {
            assert(r@ =~= seq![s@[i as int]]);
        }
        r
    }
}

/// A leading run that is non-whitespace for `m` characters and then stops
/// has length exactly `m`.
proof fn lemma_non_space_run_len_exact(s: Seq<char>, m: int)
    requires
        0 <= m <= s.len(),
        forall|k: int| 0 <= k < m ==> !is_space_char(#[trigger] s[k]),
        m == s.len() || is_space_char(s[m]),
    ensures
        non_space_run_len(s) == m,
    decreases m,
{
    if m == 0 {
    } else {
        assert(!is_space_char(s[0]));
        lemma_non_space_run_len_exact(s.skip(1), m - 1);
    }
}

/// Splitting off the first token: if the first `j` characters are
/// non-whitespace and position `j` ends the run, the tokens are that prefix
/// followed by the tokens of the rest.
proof fn lemma_tokens_of_first(s: Seq<char>, j: int)
    requires
        0 < j <= s.len(),
        forall|k: int| 0 <= k < j ==> !is_space_char(#[trigger] s[k]),
        j == s.len() || is_space_char(s[j]),
    ensures
        tokens_of(s) == seq![s.take(j)] + tokens_of(s.skip(j)),
{
    lemma_non_space_run_len_exact(s, j);
}

/// ASCII-lowercase a whole string.
pub fn ascii_lower(s: &str) -> (r: String)
    ensures
        r@ == lower_seq(s@),
{
    let n = s.unicode_len();
    let mut out = String::new();
    let mut i: usize = 0;
    while i < n
        invariant
            n == s@.len(),
            i <= n,
            out@ =~= lower_seq(s@).take(i as int),
        decreases n - i,
    {
        let piece = lower_char_str(s, i);
        out.append(piece);
        i = i + 1;
        proof {
            assert(out@ =~= lower_seq(s@).take(i as int));
        }
    }
    proof {
        assert(lower_seq(s@).take(n as int) =~= lower_seq(s@));
    }
    out
}

/// Character-by-character string equality.
pub fn str_eq(a: &str, b: &str) -> (r: bool)
    ensures
        r == (a@ == b@),
{
    let n = a.unicode_len();
    if n != b.unicode_len() {
        return false;
    }
    let mut i: usize = 0;
    while i < n
        invariant
            n == a@.len(),
            n == b@.len(),
            i <= n,
            forall|k: int| 0 <= k < i ==> a@[k] == b@[k],
        decreases n - i,
    {
        if a.get_char(i) != b.get_char(i) {
            return false;
        }
        i = i + 1;
    }
    proof {
        assert(a@ =~= b@);
    }
    true
}

/// Split a string into its whitespace-separated tokens, in order.
pub fn split_tokens(s: &str) -> (ts: Vec<String>)
    ensures
        token_views(ts@) == tokens_of(s@),
{
    let n = s.unicode_len();
    let mut ts: Vec<String> = Vec::new();
    let mut i: usize = 0;
    proof {
        assert(s@.skip(0) =~= s@);
        assert(token_views(ts@) + tokens_of(s@) =~= tokens_of(s@));
    }
    while i < n
        invariant
            n == s@.len(),
            i <= n,
            token_views(ts@) + tokens_of(s@.skip(i as int)) == tokens_of(s@),
        decreases n - i,
    {
        let c = s.get_char(i);
        if is_space_exec(c) {
            proof {
                let sub = s@.skip(i as int);
                assert(sub.len() > 0 && is_space_char(sub[0]));
                assert(sub.skip(1) =~= s@.skip(i as int + 1));
            }
            i = i + 1;
        } else {
            let mut j: usize = i + 1;
            while j < n && !is_space_exec(s.get_char(j))
                invariant
                    n == s@.len(),
                    i < j <= n,
                    !is_space_char(s@[i as int]),
                    forall|k: int| i <= k < j ==> !is_space_char(#[trigger] s@[k]),
                decreases n - j,
            {
                j = j + 1;
            }
            let tok = s.substring_char(i, j).to_owned();
            proof {
                let sub = s@.skip(i as int);
                let m = j - i;
                assert forall|k: int| 0 <= k < m implies !is_space_char(#[trigger] sub[k]) by {
                    assert(sub[k] == s@[i + k]);
                }
                if m < sub.len() {
                    assert(sub[m] == s@[j as int]);
                }
                lemma_tokens_of_first(sub, m);
                assert(sub.take(m) =~= s@.subrange(i as int, j as int));
                assert(sub.skip(m) =~= s@.skip(j as int));
                assert(token_views(ts@.push(tok)) =~= token_views(ts@).push(tok@));
                assert(token_views(ts@).push(tok@) + tokens_of(s@.skip(j as int)) =~= token_views(
                    ts@,
                ) + (seq![tok@] + tokens_of(s@.skip(j as int))));
            }
            ts.push(tok);
            i = j;
        }
    }
    proof {
        assert(s@.skip(n as int) =~= Seq::<char>::empty());
        assert(token_views(ts@) + tokens_of(Seq::<char>::empty()) =~= token_views(ts@));
    }
    ts
}

/// Turn query tokens into the per-token patterns of the structured lookup:
/// every token but the last must match a word exactly, the last token is
/// given a `.*` suffix so it matches as a word prefix.
pub fn build_patterns(tokens: &Vec<String>) -> (ps: Vec<String>)
    requires
        tokens@.len() >= 1,
    ensures
        ps@.len() == tokens@.len(),
        forall|j: int| 0 <= j < tokens@.len() - 1 ==> (#[trigger] ps@[j])@ == tokens@[j]@,
        ps@[ps@.len() - 1]@ == tokens@[tokens@.len() - 1]@ + ".*"@,
{
    let n = tokens.len();
    let mut ps: Vec<String> = Vec::new();
    let mut j: usize = 0;
    while j < n - 1
        invariant
            n == tokens@.len(),
            1 <= n,
            j <= n - 1,
            ps@.len() == j,
            forall|k: int| 0 <= k < j ==> (#[trigger] ps@[k])@ == tokens@[k]@,
        decreases n - 1 - j,
    {
        ps.push(tokens[j].clone());
        j = j + 1;
    }
    let mut last = tokens[n - 1].clone();
    last.append(".*");
    ps.push(last);
    ps
}

/// The pattern list built by `build_patterns` asks of a title exactly what
/// the type-ahead rule asks: whole-word matches for all but the last token,
/// a word-prefix match for the last.
pub proof fn lemma_patterns_bridge(ts: Seq<Seq<char>>, ps: Seq<Seq<char>>)
    requires
        ts.len() >= 1,
        ps.len() == ts.len(),
        forall|j: int| 0 <= j < ts.len() - 1 ==> #[trigger] ps[j] == ts[j],
        ps[ps.len() - 1] == ts[ts.len() - 1] + ".*"@,
        tokens_ok(ts),
    ensures
        patterns_ok(ps),
        forall|t: Seq<char>| #[trigger] title_selected(ps, t) == prefix_match(ts, t),
{
    reveal_strlit(".*");
    assert(".*"@ =~= seq!['.', '*']);
    let last = ps.len() - 1;
    assert forall|j: int| 0 <= j < ps.len() implies pattern_ok(#[trigger] ps[j]) by {
        if j < last {
            assert(is_word_token(ts[j]));
            assert(is_word_char(ps[j][ps[j].len() - 1]));
            assert(!is_prefix_pattern(ps[j]));
        } else {
            let p = ps[last];
            let t = ts[last];
            assert(p.len() == t.len() + 2);
            assert(p[p.len() - 2] == '.' && p[p.len() - 1] == '*');
            assert(is_prefix_pattern(p));
            assert(pattern_stem(p) =~= t);
        }
    }
    assert forall|t: Seq<char>| #[trigger] title_selected(ps, t) == prefix_match(ts, t) by {
        let p = ps[last];
        assert(is_prefix_pattern(p));
        assert(pattern_stem(p) =~= ts[last]);
        if title_selected(ps, t) {
            assert forall|j: int| 0 <= j < ts.len() - 1 implies has_word(t, #[trigger] ts[j]) by {
                assert(pattern_selects(ps[j], t));
            }
            assert(pattern_selects(p, t));
            assert(has_word_prefix(t, ts[last]));
            assert(prefix_match(ts, t));
        }
        if prefix_match(ts, t) {
            assert forall|j: int| 0 <= j < ps.len() implies pattern_selects(#[trigger] ps[j], t) by {
                if j < last {
                    assert(has_word(t, ts[j]));
                    assert(is_word_char(ps[j][ps[j].len() - 1]));
                    assert(!is_prefix_pattern(ps[j]));
                } else {
                    assert(has_word_prefix(t, ts[last]));
                }
            }
            assert(title_selected(ps, t));
        }
    }
}

} // verus!
