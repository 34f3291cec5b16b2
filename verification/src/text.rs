//! Character-level text handling: whitespace, trimming, splitting and
//! the conversions between `str` / `String` and vectors of characters.

use vstd::prelude::*;

verus! {

broadcast use vstd::string::group_string_axioms;

/// Unicode `White_Space` property: the characters that `str::trim`,
/// `str::lines`' callers and the `\s` class of regular expressions treat as blank.
pub open spec fn is_white_space(c: char) -> bool {
    let n = c as u32;
    ||| 0x9 <= n <= 0xd
    ||| n == 0x20
    ||| n == 0x85
    ||| n == 0xa0
    ||| n == 0x1680
    ||| 0x2000 <= n <= 0x200a
    ||| n == 0x2028
    ||| n == 0x2029
    ||| n == 0x202f
    ||| n == 0x205f
    ||| n == 0x3000
}

/// Executable test for the `White_Space` property.
pub fn is_whitespace(c: char) -> (r: bool)
    ensures
        r == is_white_space(c),
{
    let n = c as u32;
    (0x9 <= n && n <= 0xd) || n == 0x20 || n == 0x85 || n == 0xa0 || n == 0x1680 || (0x2000 <= n
        && n <= 0x200a) || n == 0x2028 || n == 0x2029 || n == 0x202f || n == 0x205f || n == 0x3000
}

/// The characters of `s` in order.
pub fn chars_of(s: &str) -> (v: Vec<char>)
    ensures
        v@ == s@,
{
    let mut v: Vec<char> = Vec::new();
    for c in it: s.chars()
        invariant
            v@ == it.seq().take(it.index() as int),
            it.seq() == s@,
    {
        v.push(c);
    }
    v
}


/// `String::push`: appends one character at the end of the string.
#[verifier::external_body]
fn push_char(s: &mut String, c: char)
    ensures
        final(s)@ == old(s)@.push(c),
{
    s.push(c);
}

/// A new string holding `v[lo..hi]`.
pub fn string_of(v: &Vec<char>, lo: usize, hi: usize) -> (s: String)
    requires
        lo <= hi <= v.len(),
    ensures
        s@ == v@.subrange(lo as int, hi as int),
{
    let mut s = String::new();
    let mut i = lo;
    while i < hi
        invariant
            lo <= i <= hi <= v.len(),
            s@ == v@.subrange(lo as int, i as int),
        decreases hi - i,
    {
        push_char(&mut s, v[i]);
        i += 1;
        assert(s@ =~= v@.subrange(lo as int, i as int));
    }
    s
}

/// Leading white space removed (`str::trim_start`).
pub open spec fn trim_start(s: Seq<char>) -> Seq<char>
    decreases s.len(),
{
    if s.len() > 0 && is_white_space(s[0]) {
        trim_start(s.drop_first())
    } else {
        s
    }
}

/// Trailing white space removed (`str::trim_end`).
pub open spec fn trim_end(s: Seq<char>) -> Seq<char>
    decreases s.len(),
{
    if s.len() > 0 && is_white_space(s.last()) {
        trim_end(s.drop_last())
    } else {
        s
    }
}

/// White space removed at both ends (`str::trim`).
pub open spec fn trim(s: Seq<char>) -> Seq<char> {
    trim_end(trim_start(s))
}

/// `trim_start(s)` is the suffix of `s` after its `n` leading blanks.
proof fn lemma_trim_start_index(s: Seq<char>, n: int)
    requires
        0 <= n <= s.len(),
        forall|k: int| 0 <= k < n ==> is_white_space(#[trigger] s[k]),
        n == s.len() || !is_white_space(s[n]),
    ensures
        trim_start(s) == s.skip(n),
    decreases n,
{
    if n == 0 {
        assert(s.skip(0) =~= s);
    } else {
        let t = s.drop_first();
        assert forall|k: int| 0 <= k < n - 1 implies is_white_space(#[trigger] t[k]) by {
            assert(t[k] == s[k + 1]);
        }
        lemma_trim_start_index(t, n - 1);
        assert(t.skip(n - 1) =~= s.skip(n));
    }
}

/// `trim_end(s)` is the prefix of `s` before its trailing blanks from `m` on.
proof fn lemma_trim_end_index(s: Seq<char>, m: int)
    requires
        0 <= m <= s.len(),
        forall|k: int| m <= k < s.len() ==> is_white_space(#[trigger] s[k]),
        m == 0 || !is_white_space(s[m - 1]),
    ensures
        trim_end(s) == s.take(m),
    decreases s.len() - m,
{
    if m == s.len() {
        assert(s.take(m) =~= s);
    } else {
        let t = s.drop_last();
        assert forall|k: int| m <= k < t.len() implies is_white_space(#[trigger] t[k]) by {
            assert(t[k] == s[k]);
        }
        lemma_trim_end_index(t, m);
        assert(t.take(m) =~= s.take(m));
    }
}

/// Trimming the start never lengthens a text.
proof fn lemma_trim_start_len(s: Seq<char>)
    ensures
        trim_start(s).len() <= s.len(),
    decreases s.len(),
{
    if s.len() > 0 && is_white_space(s[0]) {
        lemma_trim_start_len(s.drop_first());
    }
}

/// Trimming the end never lengthens a text.
proof fn lemma_trim_end_len(s: Seq<char>)
    ensures
        trim_end(s).len() <= s.len(),
    decreases s.len(),
{
    if s.len() > 0 && is_white_space(s.last()) {
        lemma_trim_end_len(s.drop_last());
    }
}

/// A text that is its own trim starts and ends with a non-blank character.
pub proof fn lemma_trimmed_ends(s: Seq<char>)
    requires
        trim(s) == s,
        s.len() > 0,
    ensures
        !is_white_space(s[0]),
        !is_white_space(s.last()),
{
    if is_white_space(s[0]) {
        lemma_trim_start_len(s.drop_first());
        lemma_trim_end_len(trim_start(s));
        assert(false);
    }
    if is_white_space(s.last()) {
        assert(trim_start(s) == s);
        lemma_trim_end_len(s.drop_last());
        assert(false);
    }
}

/// A space after a trimmed text is trimmed away again.
pub proof fn lemma_trim_space_after(s: Seq<char>)
    requires
        trim(s) == s,
    ensures
        trim(s + seq![' ']) == s,
{
    let t = s + seq![' '];
    assert(is_white_space(' '));
    if s.len() == 0 {
        assert(t[0] == ' ');
        assert(t.drop_first() =~= Seq::<char>::empty());
        assert(trim_start(Seq::<char>::empty()) =~= Seq::<char>::empty());
        assert(trim_start(t) =~= Seq::<char>::empty());
    } else {
        lemma_trimmed_ends(s);
        assert(t[0] == s[0]);
        assert(trim_start(t) == t);
        assert(t.drop_last() =~= s);
        assert(trim_start(s) == s);
    }
}

/// A space before a text is trimmed away with the rest of its blanks.
pub proof fn lemma_trim_space_before(s: Seq<char>)
    ensures
        trim(seq![' '] + s) == trim(s),
{
    let t = seq![' '] + s;
    assert(is_white_space(' '));
    assert(t.drop_first() =~= s);
}

/// The split of `a`, a delimiter, then `b` is the split of `a` followed by the split of `b`.
pub proof fn lemma_split_concat(a: Seq<char>, d: char, b: Seq<char>, ds: Seq<char>)
    requires
        ds.contains(d),
    ensures
        split(a + seq![d] + b, ds) == split(a, ds) + split(b, ds),
    decreases b.len(),
{
    let s = a + seq![d] + b;
    if b.len() == 0 {
        assert(s.drop_last() =~= a);
        assert(s.last() == d);
        assert(split(a, ds).push(Seq::<char>::empty()) =~= split(a, ds) + split(b, ds));
    } else {
        let b0 = b.drop_last();
        lemma_split_concat(a, d, b0, ds);
        assert(s.drop_last() =~= a + seq![d] + b0);
        assert(s.last() == b.last());
        lemma_split_nonempty(b0, ds);
        lemma_split_nonempty(a, ds);
        let p = split(a, ds) + split(b0, ds);
        if ds.contains(b.last()) {
            assert(p.push(Seq::<char>::empty()) =~= split(a, ds) + split(b, ds));
        } else {
            let q = split(b0, ds);
            assert(p.update(p.len() - 1, p.last().push(b.last())) =~= split(a, ds) + q.update(
                q.len() - 1,
                q.last().push(b.last()),
            ));
        }
    }
}

/// A text with none of the delimiters is split into itself alone.
pub proof fn lemma_split_single(s: Seq<char>, ds: Seq<char>)
    requires
        forall|k: int| 0 <= k < s.len() ==> !ds.contains(#[trigger] s[k]),
    ensures
        split(s, ds) == seq![s],
    decreases s.len(),
{
    if s.len() == 0 {
        assert(s =~= Seq::<char>::empty());
    } else {
        let t = s.drop_last();
        assert forall|k: int| 0 <= k < t.len() implies !ds.contains(#[trigger] t[k]) by {
            assert(t[k] == s[k]);
        }
        lemma_split_single(t, ds);
        assert(!ds.contains(s[s.len() - 1]));
        assert(t.push(s.last()) =~= s);
        assert(seq![t].update(0, t.push(s.last())) =~= seq![s]);
    }
}

/// Bounds `(a, b)` such that `v[a..b]` is `v[lo..hi]` trimmed.
pub fn trim_range(v: &Vec<char>, lo: usize, hi: usize) -> (r: (usize, usize))
    requires
        lo <= hi <= v.len(),
    ensures
        lo <= r.0 <= r.1 <= hi,
        v@.subrange(r.0 as int, r.1 as int) == trim(v@.subrange(lo as int, hi as int)),
{
    let ghost s = v@.subrange(lo as int, hi as int);
    let mut a: usize = lo;
    while a < hi && is_whitespace(v[a])
        invariant
            lo <= a <= hi <= v.len(),
            s == v@.subrange(lo as int, hi as int),
            forall|k: int| lo <= k < a ==> is_white_space(#[trigger] v@[k]),
        decreases hi - a,
    {
        a += 1;
    }
    proof {
        assert forall|k: int| 0 <= k < a - lo implies is_white_space(#[trigger] s[k]) by {
            assert(s[k] == v@[k + lo]);
        }
        lemma_trim_start_index(s, a - lo);
    }
    let mut b: usize = hi;
    while b > a && is_whitespace(v[b - 1])
        invariant
            lo <= a <= b <= hi <= v.len(),
            forall|k: int| b <= k < hi ==> is_white_space(#[trigger] v@[k]),
        decreases b - a,
    {
        b -= 1;
    }
    proof {
        let t = s.skip(a - lo);
        assert forall|k: int| b - a <= k < t.len() implies is_white_space(#[trigger] t[k]) by {
            assert(t[k] == v@[k + a]);
        }
        lemma_trim_end_index(t, b - a);
        assert(t.take(b - a) =~= v@.subrange(a as int, b as int));
    }
    (a, b)
}

/// `v[lo..hi]` trimmed, as a new string.
pub fn trimmed_string(v: &Vec<char>, lo: usize, hi: usize) -> (s: String)
    requires
        lo <= hi <= v.len(),
    ensures
        s@ == trim(v@.subrange(lo as int, hi as int)),
{
    let (a, b) = trim_range(v, lo, hi);
    string_of(v, a, b)
}

/// `str::trim` into a new string.
pub fn trim_str(s: &str) -> (r: String)
    ensures
        r@ == trim(s@),
{
    let v = chars_of(s);
    assert(v@.subrange(0, v@.len() as int) =~= v@);
    trimmed_string(&v, 0, v.len())
}


/// Whether `c` is one of `ds`.
pub fn is_one_of(c: char, ds: &[char]) -> (r: bool)
    ensures
        r == ds@.contains(c),
{
    let mut i: usize = 0;
    while i < ds.len()
        invariant
            i <= ds@.len(),
            forall|k: int| 0 <= k < i ==> ds@[k] != c,
        decreases ds.len() - i,
    {
        if ds[i] == c {
            return true;
        }
        i += 1;
    }
    false
}

/// The pieces of `s` between the characters of `ds` (`str::split` with a
/// set of delimiter characters): `n` delimiters give `n + 1` pieces.
pub open spec fn split(s: Seq<char>, ds: Seq<char>) -> Seq<Seq<char>>
    decreases s.len(),
{
    if s.len() == 0 {
        seq![Seq::<char>::empty()]
    } else {
        let p = split(s.drop_last(), ds);
        if ds.contains(s.last()) {
            p.push(Seq::<char>::empty())
        } else {
            p.update(p.len() - 1, p.last().push(s.last()))
        }
    }
}

/// A split never yields an empty list of pieces.
pub proof fn lemma_split_nonempty(s: Seq<char>, ds: Seq<char>)
    ensures
        split(s, ds).len() >= 1,
    decreases s.len(),
{
    if s.len() > 0 {
        lemma_split_nonempty(s.drop_last(), ds);
    }
}

/// No piece of a split holds a delimiter.
pub proof fn lemma_split_pieces_free(s: Seq<char>, ds: Seq<char>)
    ensures
        forall|i: int, k: int|
            0 <= i < split(s, ds).len() && 0 <= k < split(s, ds)[i].len() ==> !ds.contains(
                #[trigger] split(s, ds)[i][k],
            ),
    decreases s.len(),
{
    if s.len() > 0 {
        let p = split(s.drop_last(), ds);
        lemma_split_pieces_free(s.drop_last(), ds);
        lemma_split_nonempty(s.drop_last(), ds);
        if !ds.contains(s.last()) {
            let q = split(s, ds);
            assert forall|i: int, k: int| 0 <= i < q.len() && 0 <= k < q[i].len() implies !ds.contains(
                #[trigger] q[i][k],
            ) by {
                if i == p.len() - 1 && k == p.last().len() {
                    assert(q[i][k] == s.last());
                } else if i == p.len() - 1 {
                    assert(q[i][k] == p[i][k]);
                } else {
                    assert(q[i] == p[i]);
                }
            }
        } else {
            let q = split(s, ds);
            assert forall|i: int, k: int| 0 <= i < q.len() && 0 <= k < q[i].len() implies !ds.contains(
                #[trigger] q[i][k],
            ) by {
                assert(i < p.len());
                assert(q[i] == p[i]);
            }
        }
    }
}

/// Joining the pieces of a split at one delimiter with that delimiter gives
/// the text back.
pub proof fn lemma_join_split(s: Seq<char>, d: char)
    ensures
        join(split(s, seq![d]), seq![d]) == s,
    decreases s.len(),
{
    let ds = seq![d];
    if s.len() == 0 {
        assert(s =~= Seq::<char>::empty());
    } else {
        let p = split(s.drop_last(), ds);
        lemma_join_split(s.drop_last(), d);
        lemma_split_nonempty(s.drop_last(), ds);
        let q = split(s, ds);
        if ds.contains(s.last()) {
            assert(s.last() == d) by {
                let j = choose|j: int| 0 <= j < 1 && ds[j] == s.last();
            }
            assert(q.drop_last() =~= p);
            assert(join(p, ds) + ds + Seq::<char>::empty() =~= s) by {
                assert(s.drop_last().push(d) =~= s);
            }
        } else {
            assert(ds[0] == d);
            let c = s.last();
            if p.len() == 1 {
                assert(q =~= seq![p[0].push(c)]);
                assert(p[0] == s.drop_last());
                assert(s.drop_last().push(c) =~= s);
            } else {
                assert(q.drop_last() =~= p.drop_last());
                assert(q.last() == p.last().push(c));
                assert(join(p.drop_last(), ds) + ds + p.last().push(c) =~= (join(p.drop_last(), ds) + ds
                    + p.last()).push(c));
                assert(s.drop_last().push(c) =~= s);
            }
        }
    }
}

/// The pieces named by the index ranges `r` into `v`.
pub open spec fn ranges_view(v: Seq<char>, r: Seq<(usize, usize)>) -> Seq<Seq<char>> {
    Seq::new(r.len(), |k: int| v.subrange(r[k].0 as int, r[k].1 as int))
}

/// The ranges of the pieces of `v[lo..hi]` split at the characters of `ds`.
pub fn split_ranges(v: &Vec<char>, lo: usize, hi: usize, ds: &[char]) -> (r: Vec<(usize, usize)>)
    requires
        lo <= hi <= v.len(),
    ensures
        ranges_view(v@, r@) == split(v@.subrange(lo as int, hi as int), ds@),
        forall|k: int| 0 <= k < r.len() ==> lo <= (#[trigger] r@[k]).0 <= r@[k].1 <= hi,
{
    let mut r: Vec<(usize, usize)> = Vec::new();
    let mut start: usize = lo;
    let mut i: usize = lo;
    assert(v@.subrange(lo as int, lo as int) =~= Seq::<char>::empty());
    assert(ranges_view(v@, r@).push(v@.subrange(start as int, i as int)) =~= split(
        v@.subrange(lo as int, i as int),
        ds@,
    ));
    while i < hi
        invariant
            lo <= start <= i <= hi <= v.len(),
            forall|k: int| 0 <= k < r.len() ==> lo <= (#[trigger] r@[k]).0 <= r@[k].1 <= start,
            ranges_view(v@, r@).push(v@.subrange(start as int, i as int)) == split(
                v@.subrange(lo as int, i as int),
                ds@,
            ),
        decreases hi - i,
    {
        let ghost old_ranges = ranges_view(v@, r@);
        let ghost prev = old_ranges.push(v@.subrange(start as int, i as int));
        let c = v[i];
        assert(v@.subrange(lo as int, i + 1).drop_last() =~= v@.subrange(lo as int, i as int));
        assert(v@.subrange(lo as int, i + 1).last() == c);
        if is_one_of(c, ds) {
            r.push((start, i));
            assert(ranges_view(v@, r@) =~= prev);
            start = i + 1;
            i += 1;
            assert(v@.subrange(start as int, i as int) =~= Seq::<char>::empty());
        } else {
            assert(v@.subrange(start as int, i + 1) =~= v@.subrange(start as int, i as int).push(c));
            i += 1;
            assert(ranges_view(v@, r@).push(v@.subrange(start as int, i as int)) =~= prev.update(
                prev.len() - 1,
                prev.last().push(c),
            ));
        }
    }
    let ghost before = ranges_view(v@, r@);
    r.push((start, hi));
    assert(ranges_view(v@, r@) =~= before.push(v@.subrange(start as int, hi as int)));
    r
}


/// Index of the first `d` in `s`.
pub open spec fn find_char(s: Seq<char>, d: char) -> Option<int>
    decreases s.len(),
{
    if s.len() == 0 {
        None
    } else if s[0] == d {
        Some(0)
    } else {
        match find_char(s.drop_first(), d) {
            Some(i) => Some(i + 1),
            None => None,
        }
    }
}

/// `find_char` names the first occurrence, or none when there is none.
pub proof fn lemma_find_char(s: Seq<char>, d: char, i: int)
    requires
        0 <= i <= s.len(),
        forall|k: int| 0 <= k < i ==> s[k] != d,
        i == s.len() || s[i] == d,
    ensures
        find_char(s, d) == (if i == s.len() {
            None::<int>
        } else {
            Some(i)
        }),
    decreases i,
{
    if i > 0 {
        let t = s.drop_first();
        assert forall|k: int| 0 <= k < i - 1 implies t[k] != d by {
            assert(t[k] == s[k + 1]);
        }
        lemma_find_char(t, d, i - 1);
    }
}

/// `find_char` finds nothing exactly when `d` does not occur.
pub proof fn lemma_find_char_none(s: Seq<char>, d: char)
    ensures
        find_char(s, d) is None <==> !s.contains(d),
    decreases s.len(),
{
    if s.len() > 0 {
        lemma_find_char_none(s.drop_first(), d);
        if s[0] != d && s.contains(d) {
            let j = choose|j: int| 0 <= j < s.len() && s[j] == d;
            assert(s.drop_first()[j - 1] == d);
        }
        if s.drop_first().contains(d) {
            let j = choose|j: int| 0 <= j < s.len() - 1 && s.drop_first()[j] == d;
            assert(s[j + 1] == d);
        }
    }
}

/// `find_char` names an index of `s`.
pub proof fn lemma_find_char_bound(s: Seq<char>, d: char)
    ensures
        find_char(s, d) matches Some(i) ==> 0 <= i < s.len() && s[i] == d,
    decreases s.len(),
{
    if s.len() > 0 {
        lemma_find_char_bound(s.drop_first(), d);
    }
}

/// `str::split_once` at a character: the text before and after the first `d`.
pub open spec fn split_once(s: Seq<char>, d: char) -> Option<(Seq<char>, Seq<char>)> {
    match find_char(s, d) {
        Some(i) => Some((s.take(i), s.skip(i + 1))),
        None => None,
    }
}

/// Index of the first `d` in `v[lo..hi]`.
pub fn find_in(v: &Vec<char>, lo: usize, hi: usize, d: char) -> (r: Option<usize>)
    requires
        lo <= hi <= v.len(),
    ensures
        match r {
            Some(i) => lo <= i < hi && find_char(v@.subrange(lo as int, hi as int), d) == Some(
                i - lo,
            ),
            None => find_char(v@.subrange(lo as int, hi as int), d) is None,
        },
{
    let ghost s = v@.subrange(lo as int, hi as int);
    let mut i = lo;
    while i < hi
        invariant
            lo <= i <= hi <= v.len(),
            s == v@.subrange(lo as int, hi as int),
            forall|k: int| lo <= k < i ==> v@[k] != d,
        decreases hi - i,
    {
        if v[i] == d {
            proof {
                assert forall|k: int| 0 <= k < i - lo implies s[k] != d by {
                    assert(s[k] == v@[k + lo]);
                }
                lemma_find_char(s, d, i - lo);
            }
            return Some(i);
        }
        i += 1;
    }
    proof {
        assert forall|k: int| 0 <= k < hi - lo implies s[k] != d by {
            assert(s[k] == v@[k + lo]);
        }
        lemma_find_char(s, d, hi - lo);
    }
    None
}

/// Whether `s` begins with `p`.
pub open spec fn starts_with(s: Seq<char>, p: Seq<char>) -> bool {
    p.len() <= s.len() && s.take(p.len() as int) == p
}

/// Whether `v[lo..hi]` begins with `p`.
pub fn starts_with_at(v: &Vec<char>, lo: usize, hi: usize, p: &Vec<char>) -> (r: bool)
    requires
        lo <= hi <= v.len(),
    ensures
        r == starts_with(v@.subrange(lo as int, hi as int), p@),
{
    if p.len() > hi - lo {
        return false;
    }
    let mut k: usize = 0;
    while k < p.len()
        invariant
            p.len() <= hi - lo,
            lo <= hi <= v.len(),
            k <= p.len(),
            forall|j: int| 0 <= j < k ==> v@[lo + j] == p@[j],
        decreases p.len() - k,
    {
        if v[lo + k] != p[k] {
            assert(v@.subrange(lo as int, hi as int).take(p.len() as int)[k as int] != p@[k as int]);
            return false;
        }
        k += 1;
    }
    assert(v@.subrange(lo as int, hi as int).take(p.len() as int) =~= p@);
    true
}

/// The pieces joined with `sep` between consecutive ones (`[T]::join`).
pub open spec fn join(parts: Seq<Seq<char>>, sep: Seq<char>) -> Seq<char>
    decreases parts.len(),
{
    if parts.len() == 0 {
        Seq::<char>::empty()
    } else if parts.len() == 1 {
        parts[0]
    } else {
        join(parts.drop_last(), sep) + sep + parts.last()
    }
}

/// `parts` joined with `sep` into a new string.
pub fn join_strings(parts: &Vec<String>, sep: &str) -> (r: String)
    ensures
        r@ == join(parts.deep_view(), sep@),
{
    let mut r = String::new();
    let mut i: usize = 0;
    while i < parts.len()
        invariant
            i <= parts.len(),
            r@ == join(parts.deep_view().take(i as int), sep@),
        decreases parts.len() - i,
    {
        let ghost before = parts.deep_view().take(i as int);
        if i > 0 {
            r.append(sep);
        }
        r.append(parts[i].as_str());
        i += 1;
        assert(parts.deep_view().take(i as int).drop_last() =~= before);
        assert(parts.deep_view().take(1) =~= seq![parts.deep_view()[0]]);
    }
    assert(parts.deep_view().take(parts.len() as int) =~= parts.deep_view());
    r
}


/// Whether two texts are equal.
pub fn text_eq(a: &str, b: &str) -> (r: bool)
    ensures
        r == (a@ == b@),
{
    let x = chars_of(a);
    let y = chars_of(b);
    if x.len() != y.len() {
        assert(x@.len() != y@.len());
        return false;
    }
    let mut i: usize = 0;
    while i < x.len()
        invariant
            x.len() == y.len(),
            x@ == a@,
            y@ == b@,
            i <= x.len(),
            forall|k: int| 0 <= k < i ==> x@[k] == y@[k],
        decreases x.len() - i,
    {
        if x[i] != y[i] {
            assert(x@[i as int] != y@[i as int]);
            return false;
        }
        i += 1;
    }
    assert(x@ =~= y@);
    true
}


/// What `str::to_lowercase` gives for a text (Unicode lower case mapping).
pub uninterp spec fn lowercase(s: Seq<char>) -> Seq<char>;

/// What `str::to_uppercase` gives for a text (Unicode upper case mapping).
pub uninterp spec fn uppercase(s: Seq<char>) -> Seq<char>;

/// `str::to_lowercase`: the result is a function of the text alone, named `lowercase`.
#[verifier::external_body]
pub(crate) fn to_lowercase(s: &str) -> (r: String)
    ensures
        r@ == lowercase(s@),
{
    s.to_lowercase()
}

/// `str::to_uppercase`: the result is a function of the text alone, named `uppercase`.
#[verifier::external_body]
pub(crate) fn to_uppercase(s: &str) -> (r: String)
    ensures
        r@ == uppercase(s@),
{
    s.to_uppercase()
}

/// What the alternate `Debug` rendering (`{:#?}`) gives for an optional text.
pub uninterp spec fn pretty_debug(o: Option<Seq<char>>) -> Seq<char>;

/// `format!("{:#?}", o)`: a function of the value alone, named `pretty_debug`;
/// for `None` it is the text `None`.
#[verifier::external_body]
pub(crate) fn pretty_debug_string(o: &Option<String>) -> (r: String)
    ensures
        r@ == pretty_debug(o.deep_view()),
        o is None ==> r@ == "None"@,
{
    format!("{:#?}", o)
}

/// `s` without all the repetitions of `pat` at its start (`str::trim_start_matches`).
pub open spec fn trim_start_matches(s: Seq<char>, pat: Seq<char>) -> Seq<char>
    decreases s.len(),
{
    if pat.len() > 0 && starts_with(s, pat) {
        trim_start_matches(s.skip(pat.len() as int), pat)
    } else {
        s
    }
}

/// `str::trim_start_matches` into a new string.
pub fn trim_start_matches_str(s: &str, pat: &str) -> (r: String)
    ensures
        r@ == trim_start_matches(s@, pat@),
{
    let v = chars_of(s);
    let p = chars_of(pat);
    let mut i: usize = 0;
    assert(v@.skip(0) =~= v@);
    if p.len() > 0 {
        while starts_with_at(&v, i, v.len(), &p)
            invariant
                i <= v.len(),
                p.len() > 0,
                p@ == pat@,
                v@ == s@,
                trim_start_matches(v@.skip(i as int), p@) == trim_start_matches(s@, pat@),
            decreases v.len() - i,
        {
            assert(v@.skip(i as int) =~= v@.subrange(i as int, v.len() as int));
            assert(v@.skip(i as int).skip(p.len() as int) =~= v@.skip(i + p.len()));
            i = i + p.len();
        }
        assert(v@.skip(i as int) =~= v@.subrange(i as int, v.len() as int));
    }
    string_of(&v, i, v.len())
}


/// `x` without one final carriage return.
pub open spec fn strip_cr(x: Seq<char>) -> Seq<char> {
    if x.len() > 0 && x.last() == '\r' {
        x.drop_last()
    } else {
        x
    }
}

/// The lines of a text (`str::lines`): the pieces between line feeds, each
/// that ended with a line feed losing one carriage return before it, and no
/// empty last line after a final line feed.
pub open spec fn lines_of(s: Seq<char>) -> Seq<Seq<char>> {
    let p = split(s, seq!['\n']);
    let n = p.len();
    Seq::new((n - 1) as nat, |i: int| strip_cr(p[i])) + if p[n - 1].len() > 0 {
        seq![p[n - 1]]
    } else {
        Seq::<Seq<char>>::empty()
    }
}

/// `str::lines`, each line as a new string.
pub fn lines(s: &str) -> (r: Vec<String>)
    ensures
        r.deep_view() == lines_of(s@),
{
    let v = chars_of(s);
    let p = split_ranges(&v, 0, v.len(), &['\n']);
    assert(v@.subrange(0, v@.len() as int) =~= v@);
    assert(seq!['\n'] =~= ['\n']@);
    let ghost pieces = split(s@, seq!['\n']);
    proof {
        lemma_split_nonempty(s@, seq!['\n']);
    }
    let mut r: Vec<String> = Vec::new();
    let mut i: usize = 0;
    while i + 1 < p.len()
        invariant
            pieces == ranges_view(v@, p@),
            pieces.len() >= 1,
            p.len() == pieces.len(),
            forall|k: int| 0 <= k < p.len() ==> (#[trigger] p@[k]).0 <= p@[k].1 <= v.len(),
            i + 1 <= p.len(),
            r.deep_view() == Seq::new(i as nat, |k: int| strip_cr(pieces[k])),
        decreases p.len() - i,
    {
        let (lo, hi) = p[i];
        assert(p@[i as int].0 <= p@[i as int].1 <= v.len());
        let end = if hi > lo && v[hi - 1] == '\r' {
            hi - 1
        } else {
            hi
        };
        let line = string_of(&v, lo, end);
        assert(line@ == strip_cr(pieces[i as int])) by {
            assert(pieces[i as int] == v@.subrange(lo as int, hi as int));
            if hi > lo && v@[hi - 1] == '\r' {
                assert(v@.subrange(lo as int, hi as int).drop_last() =~= v@.subrange(
                    lo as int,
                    end as int,
                ));
            }
        }
        let ghost before = r.deep_view();
        r.push(line);
        assert(r.deep_view() =~= before.push(line@));
        i += 1;
        assert(r.deep_view() =~= Seq::new(i as nat, |k: int| strip_cr(pieces[k])));
    }
    let (lo, hi) = p[i];
    assert(p@[i as int].0 <= p@[i as int].1 <= v.len());
    let ghost first = r.deep_view();
    if hi > lo {
        let last = string_of(&v, lo, hi);
        r.push(last);
        assert(r.deep_view() =~= first.push(last@));
        assert(r.deep_view() =~= first + seq![pieces[pieces.len() - 1]]);
    } else {
        assert(r.deep_view() =~= first + Seq::<Seq<char>>::empty());
    }
    r
}


/// The pieces of `s` between the characters of `ds`, as new strings.
pub fn split_strings(s: &str, ds: &[char]) -> (r: Vec<String>)
    ensures
        r.deep_view() == split(s@, ds@),
{
    let v = chars_of(s);
    let p = split_ranges(&v, 0, v.len(), ds);
    assert(v@.subrange(0, v@.len() as int) =~= v@);
    let ghost pieces = split(s@, ds@);
    let mut r: Vec<String> = Vec::new();
    let mut i: usize = 0;
    while i < p.len()
        invariant
            pieces == ranges_view(v@, p@),
            forall|k: int| 0 <= k < p.len() ==> (#[trigger] p@[k]).0 <= p@[k].1 <= v.len(),
            i <= p.len(),
            r.deep_view() == pieces.take(i as int),
        decreases p.len() - i,
    {
        let (lo, hi) = p[i];
        assert(p@[i as int].0 <= p@[i as int].1 <= v.len());
        let piece = string_of(&v, lo, hi);
        let ghost before = r.deep_view();
        r.push(piece);
        assert(r.deep_view() =~= before.push(piece@));
        i += 1;
        assert(r.deep_view() =~= pieces.take(i as int));
    }
    assert(pieces.take(i as int) =~= pieces);
    r
}


/// `s` with each occurrence of `from`, from left to right and without
/// overlaps, replaced by `to` (`str::replace`); an empty `from` replaces nothing.
pub open spec fn replace(s: Seq<char>, from: Seq<char>, to: Seq<char>) -> Seq<char>
    decreases s.len(),
{
    if s.len() == 0 {
        Seq::<char>::empty()
    } else if from.len() > 0 && starts_with(s, from) {
        to + replace(s.skip(from.len() as int), from, to)
    } else {
        seq![s[0]] + replace(s.drop_first(), from, to)
    }
}

/// `str::replace` into a new string (an empty `from` replaces nothing).
pub fn replace_str(s: &str, from: &str, to: &str) -> (r: String)
    ensures
        r@ == replace(s@, from@, to@),
{
    let v = chars_of(s);
    let p = chars_of(from);
    let mut out = String::new();
    let mut i: usize = 0;
    assert(v@.skip(0) =~= v@);
    while i < v.len()
        invariant
            i <= v.len(),
            v@ == s@,
            p@ == from@,
            out@ + replace(v@.skip(i as int), from@, to@) == replace(s@, from@, to@),
        decreases v.len() - i,
    {
        let ghost rest = v@.skip(i as int);
        assert(rest =~= v@.subrange(i as int, v.len() as int));
        if p.len() > 0 && starts_with_at(&v, i, v.len(), &p) {
            out.append(to);
            assert(rest.skip(p.len() as int) =~= v@.skip(i + p.len()));
            i = i + p.len();
        } else {
            out.append(string_of(&v, i, i + 1).as_str());
            assert(v@.subrange(i as int, i + 1) =~= seq![rest[0]]);
            assert(rest.drop_first() =~= v@.skip(i + 1));
            i += 1;
        }
    }
    assert(v@.skip(i as int) =~= Seq::<char>::empty());
    assert(out@ + Seq::<char>::empty() =~= out@);
    out
}

} // verus!
