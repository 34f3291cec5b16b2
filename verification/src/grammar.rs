//! The line grammar of description files: section headers
//! `[name, name.scope]`, macro definitions `DEFINE name = value` and macro
//! references `$(name)`.

use vstd::prelude::*;
use crate::text::{
    chars_of, find_in, lemma_find_char_none, is_white_space, is_whitespace, string_of, trim, trim_range, trim_start,
};

verus! {

/// Whether the `\w` class of the `regex` crate (Unicode word characters) holds `c`.
pub uninterp spec fn regex_word_char(c: char) -> bool;

/// Matches `c` alone against `\A\w\z` with the `regex` crate. The result is
/// a function of the character alone, named `regex_word_char`.
#[verifier::external_body]
pub(crate) fn is_word_char(c: char) -> (r: bool)
    ensures
        r == regex_word_char(c),
{
    let mut buf = [0u8; 4];
    regex::Regex::new(r"\A\w\z").unwrap().is_match(c.encode_utf8(&mut buf))
}

/// The characters that a section header may hold between its brackets.
pub open spec fn is_header_char(c: char) -> bool {
    regex_word_char(c) || c == '.' || c == ',' || c == ' '
}

/// The text between the brackets of a section header line, if the line is one:
/// blanks, `[`, one or more word characters, dots, commas or spaces, `]`, blanks
/// (`^\s*\[(?P<section>[\w., ]+)\]\s*$`).
pub open spec fn section_header(line: Seq<char>) -> Option<Seq<char>> {
    let t = trim(line);
    if t.len() >= 3 && t[0] == '[' && t.last() == ']' && (forall|k: int|
        1 <= k < t.len() - 1 ==> is_header_char(#[trigger] t[k])) {
        Some(t.subrange(1, t.len() - 1))
    } else {
        None
    }
}

/// The text between the brackets of a section header line, if the line is one.
pub fn parse_section_header(line: &str) -> (r: Option<String>)
    ensures
        r.deep_view() == section_header(line@),
{
    let v = chars_of(line);
    let (a, b) = trim_range(&v, 0, v.len());
    assert(v@.subrange(0, v@.len() as int) =~= v@);
    let ghost t = v@.subrange(a as int, b as int);
    assert(t == trim(line@));
    assert(t.len() == b - a);
    if b - a >= 3 {
        assert(t[0] == v@[a as int]);
        assert(t.last() == v@[b - 1]);
    }
    if b - a < 3 || v[a] != '[' || v[b - 1] != ']' {
        return None;
    }
    let mut k = a + 1;
    while k < b - 1
        invariant
            a + 1 <= k <= b - 1,
            b <= v.len(),
            t == v@.subrange(a as int, b as int),
            t == trim(line@),
            forall|j: int| 1 <= j < k - a ==> is_header_char(#[trigger] t[j]),
        decreases b - 1 - k,
    {
        let c = v[k];
        if !(is_word_char(c) || c == '.' || c == ',' || c == ' ') {
            assert(t[k - a] == c);
            return None;
        }
        assert(t[k - a] == c);
        k += 1;
    }
    assert(t.subrange(1, t.len() - 1) =~= v@.subrange(a + 1, b - 1));
    Some(string_of(&v, a + 1, b - 1))
}

/// The number of word characters at the start of `s`.
pub open spec fn word_prefix_len(s: Seq<char>) -> nat
    decreases s.len(),
{
    if s.len() > 0 && regex_word_char(s[0]) {
        1 + word_prefix_len(s.drop_first())
    } else {
        0
    }
}

/// The word characters at the start of `s` are the first `n`.
proof fn lemma_word_prefix_len(s: Seq<char>, n: int)
    requires
        0 <= n <= s.len(),
        forall|k: int| 0 <= k < n ==> regex_word_char(#[trigger] s[k]),
        n == s.len() || !regex_word_char(s[n]),
    ensures
        word_prefix_len(s) == n,
    decreases n,
{
    if n > 0 {
        let t = s.drop_first();
        assert forall|k: int| 0 <= k < n - 1 implies regex_word_char(#[trigger] t[k]) by {
            assert(t[k] == s[k + 1]);
        }
        lemma_word_prefix_len(t, n - 1);
    }
}

/// Whether `s` is `DEFINE` in any case of its letters.
pub open spec fn is_define_keyword(s: Seq<char>) -> bool {
    &&& s.len() == 6
    &&& (s[0] == 'D' || s[0] == 'd')
    &&& (s[1] == 'E' || s[1] == 'e')
    &&& (s[2] == 'F' || s[2] == 'f')
    &&& (s[3] == 'I' || s[3] == 'i')
    &&& (s[4] == 'N' || s[4] == 'n')
    &&& (s[5] == 'E' || s[5] == 'e')
}

/// The name and value of a macro definition line, if the line is one: blanks,
/// `DEFINE` in any case, one or more blanks, a name of word characters, blanks,
/// `=`, blanks, then the value up to the end of the line, which holds no line feed
/// (`(?i)^\s*DEFINE\s+(?P<variable>\w+)\s*=\s*(?P<value>.*)$`).
pub open spec fn define_line(line: Seq<char>) -> Option<(Seq<char>, Seq<char>)> {
    let t = trim_start(line);
    if t.len() > 6 && is_define_keyword(t.take(6)) && is_white_space(t[6]) {
        let r = trim_start(t.skip(6));
        let n = word_prefix_len(r);
        let after = trim_start(r.skip(n as int));
        if n > 0 && after.len() > 0 && after[0] == '=' {
            let value = trim_start(after.drop_first());
            if !value.contains('\n') {
                Some((r.take(n as int), value))
            } else {
                None
            }
        } else {
            None
        }
    } else {
        None
    }
}

/// The first index from `i` on that is not white space.
fn skip_blanks(v: &Vec<char>, i: usize) -> (r: usize)
    requires
        i <= v.len(),
    ensures
        i <= r <= v.len(),
        v@.subrange(r as int, v.len() as int) == trim_start(v@.subrange(i as int, v.len() as int)),
{
    let mut j = i;
    while j < v.len() && is_whitespace(v[j])
        invariant
            i <= j <= v.len(),
            forall|k: int| i <= k < j ==> is_white_space(#[trigger] v@[k]),
        decreases v.len() - j,
    {
        j += 1;
    }
    proof {
        let s = v@.subrange(i as int, v.len() as int);
        assert forall|k: int| 0 <= k < j - i implies is_white_space(#[trigger] s[k]) by {
            assert(s[k] == v@[k + i]);
        }
        lemma_trim_start_skip(s, j - i);
        assert(s.skip(j - i) =~= v@.subrange(j as int, v.len() as int));
    }
    j
}

/// `trim_start(s)` is the suffix after the `n` leading blanks.
proof fn lemma_trim_start_skip(s: Seq<char>, n: int)
    requires
        0 <= n <= s.len(),
        forall|k: int| 0 <= k < n ==> is_white_space(#[trigger] s[k]),
        n == s.len() || !is_white_space(s[n]),
    ensures
        trim_start(s) == s.skip(n),
    decreases n,
{
    if n == 0 {
        assert(s.skip(0) =~= s);
    } else {
        let t = s.drop_first();
        assert forall|k: int| 0 <= k < n - 1 implies is_white_space(#[trigger] t[k]) by {
            assert(t[k] == s[k + 1]);
        }
        lemma_trim_start_skip(t, n - 1);
        assert(t.skip(n - 1) =~= s.skip(n));
    }
}

/// Whether `c` is the upper or the lower case form of the letter `upper`.
fn is_letter(c: char, upper: char, lower: char) -> (r: bool)
    ensures
        r == (c == upper || c == lower),
{
    c == upper || c == lower
}

/// The name and value of a macro definition line, if the line is one.
pub fn parse_define_line(line: &str) -> (r: Option<(String, String)>)
    ensures
        r.deep_view() == define_line(line@),
{
    let v = chars_of(line);
    assert(v@.subrange(0, v@.len() as int) =~= v@);
    let a = skip_blanks(&v, 0);
    let ghost t = v@.subrange(a as int, v.len() as int);
    if v.len() - a <= 6 {
        return None;
    }
    assert(t.take(6)[0] == v@[a as int] && t.take(6)[1] == v@[a + 1] && t.take(6)[2] == v@[a + 2]
        && t.take(6)[3] == v@[a + 3] && t.take(6)[4] == v@[a + 4] && t.take(6)[5] == v@[a + 5]);
    if !(is_letter(v[a], 'D', 'd') && is_letter(v[a + 1], 'E', 'e') && is_letter(
        v[a + 2],
        'F',
        'f',
    ) && is_letter(v[a + 3], 'I', 'i') && is_letter(v[a + 4], 'N', 'n') && is_letter(
        v[a + 5],
        'E',
        'e',
    ) && is_whitespace(v[a + 6])) {
        assert(t[6] == v@[a + 6]);
        return None;
    }
    assert(t[6] == v@[a + 6]);
    let b = skip_blanks(&v, a + 6);
    assert(t.skip(6) =~= v@.subrange(a + 6, v.len() as int));
    let ghost r = v@.subrange(b as int, v.len() as int);
    let mut c = b;
    while c < v.len() && is_word_char(v[c])
        invariant
            b <= c <= v.len(),
            forall|k: int| b <= k < c ==> regex_word_char(#[trigger] v@[k]),
        decreases v.len() - c,
    {
        c += 1;
    }
    proof {
        assert forall|k: int| 0 <= k < c - b implies regex_word_char(#[trigger] r[k]) by {
            assert(r[k] == v@[k + b]);
        }
        if c < v.len() {
            assert(r[c - b] == v@[c as int]);
        }
        lemma_word_prefix_len(r, c - b);
    }
    if c == b {
        return None;
    }
    let d = skip_blanks(&v, c);
    assert(r.skip(c - b) =~= v@.subrange(c as int, v.len() as int));
    if d == v.len() || v[d] != '=' {
        return None;
    }
    let e = skip_blanks(&v, d + 1);
    assert(v@.subrange(d as int, v.len() as int).drop_first() =~= v@.subrange(
        d + 1,
        v.len() as int,
    ));
    proof {
        lemma_find_char_none(v@.subrange(e as int, v.len() as int), '\n');
    }
    if find_in(&v, e, v.len(), '\n').is_some() {
        return None;
    }
    assert(r.take(c - b) =~= v@.subrange(b as int, c as int));
    Some((string_of(&v, b, c), string_of(&v, e, v.len())))
}

} // verus!
