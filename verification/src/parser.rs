//! The reader of a whole description file: it splits the file into lines,
//! writes out every header that names several sections as one header per
//! section, replaces the macros, then reads the sections into rows.

use vstd::prelude::*;
use crate::config::{lookup, spec_lookup, Config, Dsc, Inf};
use crate::error::Error;
use crate::ini::{ini_sections, read_ini};
use crate::rows::{SectionParser, SectionRows};
use crate::grammar::{define_line, parse_define_line, parse_section_header, section_header};
use crate::macros::MacroMap;
use crate::text::{
    chars_of, find_char, find_in, join, join_strings, lemma_find_char_bound, lemma_join_split,
    lemma_split_nonempty, lemma_split_pieces_free, split, split_strings,
    lines, lines_of, string_of, text_eq, to_lowercase, trim, trim_str, lowercase,
};
use vstd::string::StrSliceExecFns;

verus! {

/// The sections to search, in order, for a macro used in the section `search`
/// (`<name>[.<scope1>[.<scope2>]]`): the section itself, the same with `common`
/// for its first scope, then the same with fewer scopes, down to the bare name.
pub open spec fn search_patterns(search: Seq<char>) -> Seq<Seq<char>> {
    let p = split(search, seq!['.']);
    let common = "common"@;
    if p.len() == 3 {
        seq![join(p, "."@)] + (if p[1] != common {
            seq![p[0] + ".common."@ + p[2], p[0] + "."@ + p[1]]
        } else {
            Seq::<Seq<char>>::empty()
        }) + seq![p[0] + ".common"@, p[0]]
    } else if p.len() == 2 {
        (if p[1] != common {
            seq![p[0] + "."@ + p[1]]
        } else {
            Seq::<Seq<char>>::empty()
        }) + seq![p[0] + ".common"@, p[0]]
    } else if p.len() == 1 {
        seq![p[0] + ".common"@, p[0]]
    } else {
        Seq::<Seq<char>>::empty()
    }
}

/// The value of the first of `patterns` in which `name` is defined.
pub open spec fn find_macro(
    map: Map<(Seq<char>, Seq<char>), Seq<char>>,
    patterns: Seq<Seq<char>>,
    name: Seq<char>,
) -> Option<Seq<char>>
    decreases patterns.len(),
{
    if patterns.len() == 0 {
        None
    } else if map.contains_key((patterns[0], name)) {
        Some(map[(patterns[0], name)])
    } else {
        find_macro(map, patterns.drop_first(), name)
    }
}

/// `a.x` and `b.y`, for `a` and `b` without dots, are equal only when
/// `a == b` and `x == y`.
proof fn lemma_dotted_eq(a: Seq<char>, x: Seq<char>, b: Seq<char>, y: Seq<char>)
    requires
        !a.contains('.'),
        !b.contains('.'),
        a + "."@ + x == b + "."@ + y,
    ensures
        a == b,
        x == y,
{
    reveal_strlit(".");
    let s = a + "."@ + x;
    let t = b + "."@ + y;
    if a.len() < b.len() {
        assert(s[a.len() as int] == '.');
        assert(t[a.len() as int] == b[a.len() as int]);
        assert(b.contains('.'));
    }
    if b.len() < a.len() {
        assert(t[b.len() as int] == '.');
        assert(s[b.len() as int] == a[b.len() as int]);
        assert(a.contains('.'));
    }
    assert(a =~= s.take(a.len() as int));
    assert(b =~= t.take(b.len() as int));
    assert(x =~= s.skip(a.len() as int + 1));
    assert(y =~= t.skip(b.len() as int + 1));
}

/// `a.x`, for any `a` and `x`, holds a dot, so it differs from a text without one.
proof fn lemma_dotted_has_dot(a: Seq<char>, x: Seq<char>, c: Seq<char>)
    requires
        !c.contains('.'),
    ensures
        a + "."@ + x != c,
{
    reveal_strlit(".");
    let s = a + "."@ + x;
    assert(s[a.len() as int] == '.');
    if s == c {
        assert(c[a.len() as int] == '.');
        assert(c.contains('.'));
    }
}

/// The search patterns of a section name: with two or three parts the name
/// itself comes first, with one part it comes last after its `common` form,
/// with more than three nothing is searched, and no pattern comes twice.
pub proof fn lemma_search_patterns_law(search: Seq<char>)
    ensures
        split(search, seq!['.']).len() > 3 ==> search_patterns(search).len() == 0,
        2 <= split(search, seq!['.']).len() <= 3 ==> search_patterns(search).len() > 0
            && search_patterns(search)[0] == search,
        split(search, seq!['.']).len() == 1 ==> search_patterns(search) == seq![
            search + ".common"@,
            search,
        ],
        forall|i: int, j: int|
            0 <= i < j < search_patterns(search).len() ==> search_patterns(search)[i]
                != search_patterns(search)[j],
        ({
            let p = split(search, seq!['.']);
            &&& p.len() == 3 && p[1] != "common"@ ==> search_patterns(search) == seq![
                search,
                p[0] + ".common."@ + p[2],
                p[0] + "."@ + p[1],
                p[0] + ".common"@,
                p[0],
            ]
            &&& p.len() == 3 && p[1] == "common"@ ==> search_patterns(search) == seq![
                search,
                p[0] + ".common"@,
                p[0],
            ]
            &&& p.len() == 2 && p[1] != "common"@ ==> search_patterns(search) == seq![
                search,
                p[0] + ".common"@,
                p[0],
            ]
            &&& p.len() == 2 && p[1] == "common"@ ==> search_patterns(search) == seq![search, p[0]]
        }),
{
    reveal_strlit(".");
    reveal_strlit(".common");
    reveal_strlit(".common.");
    reveal_strlit("common");
    let dot = "."@;
    let common = "common"@;
    let p = split(search, seq!['.']);
    lemma_join_split(search, '.');
    lemma_split_pieces_free(search, seq!['.']);
    lemma_split_nonempty(search, seq!['.']);
    assert(dot =~= seq!['.']);
    assert(".common"@ =~= dot + common);
    assert(".common."@ =~= dot + common + dot);
    assert(!common.contains('.')) by {
        if common.contains('.') {
            let k = choose|k: int| 0 <= k < common.len() && common[k] == '.';
        }
    }
    assert forall|i: int| 0 <= i < p.len() implies !(#[trigger] p[i]).contains('.') by {
        if p[i].contains('.') {
            let k = choose|k: int| 0 <= k < p[i].len() && p[i][k] == '.';
            assert(!seq!['.'].contains(p[i][k]));
            assert(seq!['.'][0] == '.');
        }
    }
    let sp = search_patterns(search);
    if p.len() == 1 {
        assert(join(p, dot) == p[0]);
        assert(p[0] + ".common"@ =~= p[0] + dot + common);
        assert(sp =~= seq![p[0] + dot + common, p[0]]);
    } else if p.len() == 2 {
        assert(p.drop_last() =~= seq![p[0]]);
        assert(join(p.drop_last(), dot) == p[0]);
        assert(join(p, dot) == p[0] + dot + p[1]);
        assert(p[0] + ".common"@ =~= p[0] + dot + common);
        let c = p[0] + dot + common;
        let b = p[0] + dot + p[1];
        assert(c.len() > p[0].len());
        if p[1] != common {
            if b == c {
                lemma_dotted_eq(p[0], p[1], p[0], common);
            }
            assert(sp =~= seq![b, c, p[0]]);
        } else {
            assert(sp =~= seq![c, p[0]]);
        }
    } else if p.len() == 3 {
        assert(p.drop_last().drop_last() =~= seq![p[0]]);
        assert(p.drop_last() =~= seq![p[0], p[1]]);
        assert(join(p.drop_last().drop_last(), dot) == p[0]);
        assert(join(p.drop_last(), dot) == p[0] + dot + p[1]);
        assert(p[0] + ".common"@ =~= p[0] + dot + common);
        assert(p[0] + ".common."@ + p[2] =~= p[0] + dot + common + dot + p[2]);
        let jn = p[0] + dot + p[1] + dot + p[2];
        assert(join(p, dot) == jn);
        assert(jn =~= p[0] + dot + (p[1] + dot + p[2]));
        let a = p[0] + dot + common + dot + p[2];
        assert(a =~= p[0] + dot + (common + dot + p[2]));
        let b = p[0] + dot + p[1];
        let c = p[0] + dot + common;
        let d = p[0];
        if jn == c {
            lemma_dotted_eq(p[0], p[1] + dot + p[2], p[0], common);
            lemma_dotted_has_dot(p[1], p[2], common);
        }
        assert(jn != b);
        assert(jn != d);
        assert(c != d);
        assert(b != d);
        if p[1] != common {
            if jn == a {
                lemma_dotted_eq(p[0], p[1] + dot + p[2], p[0], common + dot + p[2]);
                lemma_dotted_eq(p[1], p[2], common, p[2]);
            }
            if a == b {
                lemma_dotted_eq(p[0], common + dot + p[2], p[0], p[1]);
                lemma_dotted_has_dot(common, p[2], p[1]);
            }
            if b == c {
                lemma_dotted_eq(p[0], p[1], p[0], common);
            }
            assert(a != c);
            assert(a != d);
            assert(sp =~= seq![jn, a, b, c, d]);
        } else {
            assert(sp =~= seq![jn, c, d]);
        }
    }
}

/// The value found for a macro is the one of the first pattern that defines
/// it, and none is found exactly when no pattern defines it.
pub proof fn lemma_find_macro_first(
    map: Map<(Seq<char>, Seq<char>), Seq<char>>,
    patterns: Seq<Seq<char>>,
    name: Seq<char>,
)
    ensures
        forall|k: int|
            0 <= k < patterns.len() && map.contains_key((patterns[k], name)) && (forall|j: int|
                0 <= j < k ==> !map.contains_key((#[trigger] patterns[j], name))) ==> find_macro(
                map,
                patterns,
                name,
            ) == Some(map[(patterns[k], name)]),
        find_macro(map, patterns, name) is None <==> (forall|k: int|
            0 <= k < patterns.len() ==> !map.contains_key((#[trigger] patterns[k], name))),
    decreases patterns.len(),
{
    if patterns.len() > 0 {
        let rest = patterns.drop_first();
        lemma_find_macro_first(map, rest, name);
        assert forall|k: int|
            0 <= k < patterns.len() && map.contains_key((patterns[k], name)) && (forall|j: int|
                0 <= j < k ==> !map.contains_key((#[trigger] patterns[j], name))) implies find_macro(
                map,
                patterns,
                name,
            ) == Some(map[(patterns[k], name)]) by {
            if k > 0 {
                assert(!map.contains_key((patterns[0], name)));
                assert(rest[k - 1] == patterns[k]);
                assert forall|j: int| 0 <= j < k - 1 implies !map.contains_key((#[trigger] rest[j], name)) by {
                    assert(rest[j] == patterns[j + 1]);
                }
            }
        }
        if find_macro(map, patterns, name) is None {
            assert forall|k: int| 0 <= k < patterns.len() implies !map.contains_key((#[trigger] patterns[k], name)) by {
                if k > 0 {
                    assert(rest[k - 1] == patterns[k]);
                }
            }
        } else if forall|k: int| 0 <= k < patterns.len() ==> !map.contains_key((#[trigger] patterns[k], name)) {
            assert(!map.contains_key((patterns[0], name)));
            assert forall|k: int| 0 <= k < rest.len() implies !map.contains_key((#[trigger] rest[k], name)) by {
                assert(rest[k] == patterns[k + 1]);
            }
        }
    }
}

/// The value of the macro `name` used in the section `section`: the first
/// definition found in the search patterns of the section, then in `defines`.
pub open spec fn macro_value(
    map: Map<(Seq<char>, Seq<char>), Seq<char>>,
    section: Seq<char>,
    name: Seq<char>,
) -> Option<Seq<char>> {
    find_macro(map, search_patterns(section).push("defines"@), name)
}

/// The name of the macro reference `$(<name>)` at the start of `s`, if there is
/// one: `$(`, one or more characters other than `)`, then `)`.
pub open spec fn macro_ref(s: Seq<char>) -> Option<Seq<char>> {
    if s.len() >= 2 && s[0] == '$' && s[1] == '(' {
        match find_char(s.skip(2), ')') {
            Some(j) => if 1 <= j && j + 3 <= s.len() {
                Some(s.subrange(2, 2 + j))
            } else {
                None
            },
            None => None,
        }
    } else {
        None
    }
}

/// `s` with every macro reference outside double quotes, from left to right
/// and without overlaps, replaced by the value of the macro in `section`; a
/// reference to an undefined macro is kept as it is (`\$\((?P<macro>[^)]+)\)`).
/// Text between double quotes is copied unchanged, so a `$()` inside quotes is
/// not replaced; `quoted` tells whether `s` starts inside quotes, and an
/// unclosed quote runs to the end of the text.
pub open spec fn substitute_from(
    s: Seq<char>,
    map: Map<(Seq<char>, Seq<char>), Seq<char>>,
    section: Seq<char>,
    quoted: bool,
) -> Seq<char>
    decreases s.len(),
{
    if s.len() == 0 {
        Seq::<char>::empty()
    } else if s[0] == '"' {
        seq!['"'] + substitute_from(s.drop_first(), map, section, !quoted)
    } else if quoted {
        seq![s[0]] + substitute_from(s.drop_first(), map, section, true)
    } else {
        match macro_ref(s) {
            Some(name) => {
                let replacement = match macro_value(map, section, name) {
                    Some(v) => v,
                    None => s.take(name.len() + 3 as int),
                };
                replacement + substitute_from(s.skip(name.len() + 3 as int), map, section, false)
            },
            None => seq![s[0]] + substitute_from(s.drop_first(), map, section, false),
        }
    }
}

/// `s` with every macro reference, from left to right and without overlaps,
/// replaced by the value of the macro in `section`, whatever the quotes; a
/// reference to an undefined macro is kept as it is, and a value put in is not
/// scanned again.
pub open spec fn replace_refs(
    s: Seq<char>,
    map: Map<(Seq<char>, Seq<char>), Seq<char>>,
    section: Seq<char>,
) -> Seq<char>
    decreases s.len(),
{
    if s.len() == 0 {
        Seq::<char>::empty()
    } else {
        match macro_ref(s) {
            Some(name) => {
                let replacement = match macro_value(map, section, name) {
                    Some(v) => v,
                    None => s.take(name.len() + 3 as int),
                };
                replacement + replace_refs(s.skip(name.len() + 3 as int), map, section)
            },
            None => seq![s[0]] + replace_refs(s.drop_first(), map, section),
        }
    }
}

/// On a text without double quotes, macro replacement is the plain left to
/// right replacement of every reference.
pub proof fn lemma_unquoted_replacement(
    s: Seq<char>,
    map: Map<(Seq<char>, Seq<char>), Seq<char>>,
    section: Seq<char>,
)
    requires
        !s.contains('"'),
    ensures
        substitute(s, map, section) == replace_refs(s, map, section),
    decreases s.len(),
{
    if s.len() > 0 {
        assert(s[0] != '"');
        match macro_ref(s) {
            Some(name) => {
                let t = s.skip(name.len() + 3 as int);
                assert(!t.contains('"')) by {
                    if t.contains('"') {
                        let k = choose|k: int| 0 <= k < t.len() && t[k] == '"';
                        assert(s[k + name.len() + 3] == '"');
                    }
                }
                lemma_unquoted_replacement(t, map, section);
            },
            None => {
                let t = s.drop_first();
                assert(!t.contains('"')) by {
                    if t.contains('"') {
                        let k = choose|k: int| 0 <= k < t.len() && t[k] == '"';
                        assert(s[k + 1] == '"');
                    }
                }
                lemma_unquoted_replacement(t, map, section);
            },
        }
    }
}

/// `s` with its macro references outside double quotes replaced, as
/// `substitute_from` says for a text that starts outside quotes.
pub open spec fn substitute(
    s: Seq<char>,
    map: Map<(Seq<char>, Seq<char>), Seq<char>>,
    section: Seq<char>,
) -> Seq<char> {
    substitute_from(s, map, section, false)
}

/// A text without `$` holds no macro reference and is written out unchanged,
/// inside quotes or not.
pub proof fn lemma_substitute_from_plain(
    s: Seq<char>,
    map: Map<(Seq<char>, Seq<char>), Seq<char>>,
    section: Seq<char>,
    quoted: bool,
)
    requires
        !s.contains('$'),
    ensures
        substitute_from(s, map, section, quoted) == s,
    decreases s.len(),
{
    if s.len() > 0 {
        assert(s[0] != '$');
        assert(!s.drop_first().contains('$')) by {
            if s.drop_first().contains('$') {
                let k = choose|k: int| 0 <= k < s.len() - 1 && s.drop_first()[k] == '$';
                assert(s[k + 1] == '$');
            }
        }
        lemma_substitute_from_plain(s.drop_first(), map, section, true);
        lemma_substitute_from_plain(s.drop_first(), map, section, false);
        assert(seq![s[0]] + s.drop_first() =~= s);
    } else {
        assert(s =~= Seq::<char>::empty());
    }
}

/// A line without `$` holds no macro reference and is written out unchanged.
pub proof fn lemma_substitute_plain(
    s: Seq<char>,
    map: Map<(Seq<char>, Seq<char>), Seq<char>>,
    section: Seq<char>,
)
    requires
        !s.contains('$'),
    ensures
        substitute(s, map, section) == s,
{
    lemma_substitute_from_plain(s, map, section, false);
}

/// Text between double quotes is copied unchanged: a quoted part followed by
/// the rest of the line gives the quoted part, then the rest replaced.
pub proof fn lemma_quoted_kept(
    q: Seq<char>,
    rest: Seq<char>,
    map: Map<(Seq<char>, Seq<char>), Seq<char>>,
    section: Seq<char>,
)
    requires
        !q.contains('"'),
    ensures
        substitute(seq!['"'] + q + seq!['"'] + rest, map, section) == seq!['"'] + q + seq!['"']
            + substitute(rest, map, section),
    decreases q.len(),
{
    lemma_quoted_inner(q, rest, map, section);
    let s = seq!['"'] + q + seq!['"'] + rest;
    assert(s.drop_first() =~= q + seq!['"'] + rest);
    assert(seq!['"'] + (q + seq!['"'] + substitute(rest, map, section)) =~= seq!['"'] + q + seq!['"']
        + substitute(rest, map, section));
}

/// Inside quotes, the text up to the closing quote is copied unchanged.
proof fn lemma_quoted_inner(
    q: Seq<char>,
    rest: Seq<char>,
    map: Map<(Seq<char>, Seq<char>), Seq<char>>,
    section: Seq<char>,
)
    requires
        !q.contains('"'),
    ensures
        substitute_from(q + seq!['"'] + rest, map, section, true) == q + seq!['"'] + substitute(
            rest,
            map,
            section,
        ),
    decreases q.len(),
{
    let s = q + seq!['"'] + rest;
    if q.len() == 0 {
        assert(s =~= seq!['"'] + rest);
        assert(s.drop_first() =~= rest);
        assert(q + seq!['"'] + substitute(rest, map, section) =~= seq!['"'] + substitute(rest, map, section));
    } else {
        assert(q[0] != '"');
        let q1 = q.drop_first();
        assert(!q1.contains('"')) by {
            if q1.contains('"') {
                let k = choose|k: int| 0 <= k < q1.len() && q1[k] == '"';
                assert(q[k + 1] == '"');
            }
        }
        lemma_quoted_inner(q1, rest, map, section);
        assert(s[0] == q[0]);
        assert(s.drop_first() =~= q1 + seq!['"'] + rest);
        assert(seq![q[0]] + (q1 + seq!['"'] + substitute(rest, map, section)) =~= q + seq!['"']
            + substitute(rest, map, section));
    }
}

/// The state of macro replacement after some lines: the section last opened
/// (as written in its header), the definitions met, and the lines written out.
pub type MacroState = (Seq<char>, Map<(Seq<char>, Seq<char>), Seq<char>>, Seq<Seq<char>>);

/// Macro replacement of one line: blank lines and comments are written out as
/// they are; a section header opens its section and is written out; a definition
/// is recorded for the open section (in lower case) and dropped; any other line
/// is written out with its macro references outside double quotes replaced.
pub open spec fn macro_step(st: MacroState, line: Seq<char>) -> MacroState {
    let t = trim(line);
    if t.len() == 0 || t[0] == '#' {
        (st.0, st.1, st.2.push(line))
    } else {
        match section_header(line) {
            Some(h) => (h, st.1, st.2.push(line)),
            None => match define_line(line) {
                Some(d) => (st.0, st.1.insert((lowercase(st.0), d.0), d.1), st.2),
                None => (st.0, st.1, st.2.push(substitute(line, st.1, lowercase(st.0)))),
            },
        }
    }
}

/// The state of macro replacement after `lines`.
pub open spec fn macro_state(lines: Seq<Seq<char>>) -> MacroState
    decreases lines.len(),
{
    if lines.len() == 0 {
        (Seq::<char>::empty(), Map::empty(), Seq::<Seq<char>>::empty())
    } else {
        macro_step(macro_state(lines.drop_last()), lines.last())
    }
}

/// The lines with macro definitions dropped and macro references outside
/// double quotes replaced.
pub open spec fn replaced_lines(lines: Seq<Seq<char>>) -> Seq<Seq<char>> {
    macro_state(lines).2
}

/// Whether macro replacement takes `line` as a macro definition: it is not
/// blank, not a comment, not a section header, and defines a macro.
pub open spec fn is_definition(line: Seq<char>) -> bool {
    let t = trim(line);
    &&& !(t.len() == 0 || t[0] == '#')
    &&& section_header(line) is None
    &&& define_line(line) is Some
}

/// A file that neither defines nor uses macros passes macro replacement unchanged.
pub proof fn lemma_no_macros_no_change(ls: Seq<Seq<char>>)
    requires
        forall|i: int| 0 <= i < ls.len() ==> !(#[trigger] ls[i]).contains('$') && !is_definition(ls[i]),
    ensures
        replaced_lines(ls) == ls,
    decreases ls.len(),
{
    if ls.len() > 0 {
        let init = ls.drop_last();
        assert forall|i: int| 0 <= i < init.len() implies !(#[trigger] init[i]).contains('$')
            && !is_definition(init[i]) by {
            assert(init[i] == ls[i]);
        }
        lemma_no_macros_no_change(init);
        let st = macro_state(init);
        let last = ls.last();
        assert(!last.contains('$') && !is_definition(last)) by {
            assert(last == ls[ls.len() - 1]);
        }
        lemma_substitute_plain(last, st.1, lowercase(st.0));
        assert(init.push(last) =~= ls);
    } else {
        assert(replaced_lines(ls) =~= ls);
    }
}

/// Whether macro replacement writes `line` out as it stands: a blank line, a
/// comment, or a section header.
pub open spec fn is_kept_as_is(line: Seq<char>) -> bool {
    let t = trim(line);
    t.len() == 0 || t[0] == '#' || section_header(line) is Some
}

/// The bracket text of the last section header among the first `i` lines,
/// empty when there is none.
pub open spec fn header_before(ls: Seq<Seq<char>>, i: int) -> Seq<char>
    decreases i,
{
    if i <= 0 {
        Seq::<char>::empty()
    } else {
        let l = ls[i - 1];
        let t = trim(l);
        if !(t.len() == 0 || t[0] == '#') && section_header(l) is Some {
            section_header(l)->0
        } else {
            header_before(ls, i - 1)
        }
    }
}

/// The macros defined among the first `i` lines: each definition is recorded
/// under its name and the lower case text of the header above it, a later
/// definition replacing an earlier one.
pub open spec fn defs_before(ls: Seq<Seq<char>>, i: int) -> Map<(Seq<char>, Seq<char>), Seq<char>>
    decreases i,
{
    if i <= 0 {
        Map::empty()
    } else if is_definition(ls[i - 1]) {
        let d = define_line(ls[i - 1])->0;
        defs_before(ls, i - 1).insert((lowercase(header_before(ls, i - 1)), d.0), d.1)
    } else {
        defs_before(ls, i - 1)
    }
}

/// How many of the first `i` lines are not macro definitions.
pub open spec fn written_before(ls: Seq<Seq<char>>, i: int) -> int
    decreases i,
{
    if i <= 0 {
        0
    } else {
        if is_definition(ls[i - 1]) {
            written_before(ls, i - 1)
        } else {
            written_before(ls, i - 1) + 1
        }
    }
}

/// The state of macro replacement after the first `i` lines is the header
/// above them, the definitions among them, and as many lines as were kept.
proof fn lemma_macro_state_at(ls: Seq<Seq<char>>, i: int)
    requires
        0 <= i <= ls.len(),
    ensures
        macro_state(ls.take(i)).0 == header_before(ls, i),
        macro_state(ls.take(i)).1 == defs_before(ls, i),
        macro_state(ls.take(i)).2.len() == written_before(ls, i),
    decreases i,
{
    if i == 0 {
        assert(ls.take(0) =~= Seq::<Seq<char>>::empty());
    } else {
        lemma_macro_state_at(ls, i - 1);
        assert(ls.take(i).drop_last() =~= ls.take(i - 1));
        assert(ls.take(i).last() == ls[i - 1]);
    }
}

/// The lines written for a prefix stay in place as more lines are read.
proof fn lemma_macro_lines_grow(ls: Seq<Seq<char>>, i: int, j: int)
    requires
        0 <= i <= j <= ls.len(),
    ensures
        macro_state(ls.take(i)).2.len() <= macro_state(ls.take(j)).2.len(),
        forall|k: int|
            0 <= k < macro_state(ls.take(i)).2.len() ==> #[trigger] macro_state(ls.take(j)).2[k]
                == macro_state(ls.take(i)).2[k],
    decreases j - i,
{
    if i < j {
        lemma_macro_lines_grow(ls, i, j - 1);
        assert(ls.take(j).drop_last() =~= ls.take(j - 1));
        let prev = macro_state(ls.take(j - 1)).2;
        let next = macro_state(ls.take(j)).2;
        assert(next == prev || next == prev.push(macro_state(ls.take(j)).2.last()));
        assert forall|k: int| 0 <= k < macro_state(ls.take(i)).2.len() implies #[trigger] next[k]
            == macro_state(ls.take(i)).2[k] by {
            assert(next[k] == prev[k]);
        }
    }
}

/// Macro replacement keeps every line that is not a macro definition, in
/// order, and drops the definitions. Blank lines, comments and section headers
/// are kept as they stand; every other line is kept with the macro references
/// outside quotes replaced by the definitions above it, looked up from the
/// header above it.
pub proof fn lemma_replaced_lines_shape(ls: Seq<Seq<char>>)
    ensures
        replaced_lines(ls).len() == written_before(ls, ls.len() as int),
        forall|i: int|
            0 <= i < ls.len() && !is_definition(#[trigger] ls[i]) ==> replaced_lines(ls)[written_before(
                ls,
                i,
            )] == if is_kept_as_is(ls[i]) {
                ls[i]
            } else {
                substitute(ls[i], defs_before(ls, i), lowercase(header_before(ls, i)))
            },
{
    assert(ls.take(ls.len() as int) =~= ls);
    lemma_macro_state_at(ls, ls.len() as int);
    assert forall|i: int| 0 <= i < ls.len() && !is_definition(#[trigger] ls[i]) implies replaced_lines(
        ls,
    )[written_before(ls, i)] == if is_kept_as_is(ls[i]) {
        ls[i]
    } else {
        substitute(ls[i], defs_before(ls, i), lowercase(header_before(ls, i)))
    } by {
        lemma_macro_state_at(ls, i);
        lemma_macro_state_at(ls, i + 1);
        assert(ls.take(i + 1).drop_last() =~= ls.take(i));
        assert(ls.take(i + 1).last() == ls[i]);
        lemma_macro_lines_grow(ls, i + 1, ls.len() as int);
        let w = written_before(ls, i);
        assert(macro_state(ls.take(i + 1)).2[w] == macro_state(ls.take(ls.len() as int)).2[w]);
    }
}

/// The header `[name]` of one section of a header line that names several.
pub open spec fn bracketed(part: Seq<char>) -> Seq<char> {
    "["@ + trim(part) + "]"@
}

/// For each of `parts`, its header followed by the contents.
pub open spec fn sections_written(parts: Seq<Seq<char>>, contents: Seq<Seq<char>>) -> Seq<
    Seq<char>,
>
    decreases parts.len(),
{
    if parts.len() == 0 {
        Seq::<Seq<char>>::empty()
    } else {
        sections_written(parts.drop_last(), contents) + seq![bracketed(parts.last())] + contents
    }
}

/// The lines written for the sections `sections` (names separated by commas)
/// holding `contents`: one header per name, each followed by all the contents.
pub open spec fn write_sections(sections: Seq<char>, contents: Seq<Seq<char>>) -> Seq<Seq<char>> {
    sections_written(split(sections, seq![',']), contents)
}

/// The state of header expansion after some lines: the open sections (lower
/// case, as in their header), their non-blank lines, and the lines written out.
pub type ExpandState = (Seq<char>, Seq<Seq<char>>, Seq<Seq<char>>);

/// Header expansion of one line: a header writes out the sections opened
/// before it (if any were) and opens its own; other non-blank lines are kept
/// for the open sections; blank lines are dropped.
pub open spec fn expand_step(st: ExpandState, line: Seq<char>) -> ExpandState {
    match section_header(line) {
        Some(h) => (
            lowercase(h),
            Seq::<Seq<char>>::empty(),
            if st.0.len() > 0 {
                st.2 + write_sections(st.0, st.1)
            } else {
                st.2
            },
        ),
        None => if trim(line).len() > 0 {
            (st.0, st.1.push(line), st.2)
        } else {
            st
        },
    }
}

/// The state of header expansion after `lines`.
pub open spec fn expand_state(lines: Seq<Seq<char>>) -> ExpandState
    decreases lines.len(),
{
    if lines.len() == 0 {
        (Seq::<char>::empty(), Seq::<Seq<char>>::empty(), Seq::<Seq<char>>::empty())
    } else {
        expand_step(expand_state(lines.drop_last()), lines.last())
    }
}

/// The lines with every header that names several sections written out as
/// one header per section, each followed by the section's lines; blank lines
/// and the lines before the first header are dropped, unless no header follows
/// them, in which case they stand under the empty header `[]`.
pub open spec fn expanded_lines(lines: Seq<Seq<char>>) -> Seq<Seq<char>> {
    let st = expand_state(lines);
    st.2 + write_sections(st.0, st.1)
}

/// The first line from `i` on that is a section header, or the number of lines.
pub open spec fn next_header(ls: Seq<Seq<char>>, i: int) -> int
    decreases ls.len() - i,
{
    if i >= ls.len() {
        ls.len() as int
    } else if section_header(ls[i]) is Some {
        i
    } else {
        next_header(ls, i + 1)
    }
}

/// The last line before `k` that is a section header, or -1.
pub open spec fn last_header(ls: Seq<Seq<char>>, k: int) -> int
    decreases k,
{
    if k <= 0 {
        -1
    } else if section_header(ls[k - 1]) is Some {
        k - 1
    } else {
        last_header(ls, k - 1)
    }
}

/// The lines of `ls[a..b]` that are not blank, as they stand.
pub open spec fn nonblank_between(ls: Seq<Seq<char>>, a: int, b: int) -> Seq<Seq<char>>
    decreases b - a,
{
    if a >= b {
        Seq::<Seq<char>>::empty()
    } else {
        (if trim(ls[a]).len() > 0 {
            seq![ls[a]]
        } else {
            Seq::<Seq<char>>::empty()
        }) + nonblank_between(ls, a + 1, b)
    }
}

/// The lines written for the sections of the header at `a` and of every later
/// header before `b`, in order: for each header, one header line per section
/// name (lower case) followed by the non-blank lines up to the next header.
pub open spec fn expansion(ls: Seq<Seq<char>>, a: int, b: int) -> Seq<Seq<char>>
    decreases b - a,
{
    if a < 0 || a >= b || a >= ls.len() {
        Seq::<Seq<char>>::empty()
    } else {
        let c = next_header(ls, a + 1);
        if c <= a {
            Seq::<Seq<char>>::empty()
        } else {
            write_sections(lowercase(section_header(ls[a])->0), nonblank_between(ls, a + 1, c))
                + if c < b {
                expansion(ls, c, b)
            } else {
                Seq::<Seq<char>>::empty()
            }
        }
    }
}

/// `next_header` finds the first header from `i` on.
proof fn lemma_next_header(ls: Seq<Seq<char>>, i: int)
    requires
        0 <= i <= ls.len(),
    ensures
        i <= next_header(ls, i) <= ls.len(),
        next_header(ls, i) < ls.len() ==> section_header(ls[next_header(ls, i)]) is Some,
        forall|j: int| i <= j < next_header(ls, i) ==> section_header(#[trigger] ls[j]) is None,
    decreases ls.len() - i,
{
    if i < ls.len() && section_header(ls[i]) is None {
        lemma_next_header(ls, i + 1);
    }
}

/// `last_header` finds the last header before `k`.
proof fn lemma_last_header(ls: Seq<Seq<char>>, k: int)
    requires
        0 <= k <= ls.len(),
    ensures
        -1 <= last_header(ls, k) < k,
        last_header(ls, k) >= 0 ==> section_header(ls[last_header(ls, k)]) is Some,
        forall|j: int| last_header(ls, k) < j < k ==> section_header(#[trigger] ls[j]) is None,
    decreases k,
{
    if k > 0 && section_header(ls[k - 1]) is None {
        lemma_last_header(ls, k - 1);
    }
}

/// Non-blank lines of consecutive ranges join up.
proof fn lemma_nonblank_concat(ls: Seq<Seq<char>>, a: int, b: int, c: int)
    requires
        a <= b <= c,
    ensures
        nonblank_between(ls, a, b) + nonblank_between(ls, b, c) == nonblank_between(ls, a, c),
    decreases b - a,
{
    if a < b {
        lemma_nonblank_concat(ls, a + 1, b, c);
        let first: Seq<Seq<char>> = if trim(ls[a]).len() > 0 {
            seq![ls[a]]
        } else {
            Seq::<Seq<char>>::empty()
        };
        assert(first + nonblank_between(ls, a + 1, b) + nonblank_between(ls, b, c) =~= first + (
        nonblank_between(ls, a + 1, b) + nonblank_between(ls, b, c)));
    } else {
        assert(nonblank_between(ls, a, b) + nonblank_between(ls, b, c) =~= nonblank_between(ls, b, c));
    }
}

/// One more line read after `ls[a..k]`.
proof fn lemma_nonblank_push(ls: Seq<Seq<char>>, a: int, k: int)
    requires
        0 <= a <= k < ls.len(),
    ensures
        nonblank_between(ls, a, k + 1) == if trim(ls[k]).len() > 0 {
            nonblank_between(ls, a, k).push(ls[k])
        } else {
            nonblank_between(ls, a, k)
        },
{
    lemma_nonblank_concat(ls, a, k, k + 1);
    assert(nonblank_between(ls, k + 1, k + 1) =~= Seq::<Seq<char>>::empty());
    if trim(ls[k]).len() > 0 {
        assert(nonblank_between(ls, k, k + 1) =~= seq![ls[k]]);
        assert(nonblank_between(ls, a, k) + seq![ls[k]] =~= nonblank_between(ls, a, k).push(ls[k]));
    } else {
        assert(nonblank_between(ls, k, k + 1) =~= Seq::<Seq<char>>::empty());
        assert(nonblank_between(ls, a, k) + Seq::<Seq<char>>::empty() =~= nonblank_between(ls, a, k));
    }
}

/// The expansion from the header `a` up to the header `h` is followed by the
/// lines of `h` itself to give the expansion up to the header after `h`.
proof fn lemma_expansion_split(ls: Seq<Seq<char>>, a: int, h: int)
    requires
        0 <= a <= h < ls.len(),
        section_header(ls[a]) is Some,
        section_header(ls[h]) is Some,
    ensures
        expansion(ls, a, h) + write_sections(
            lowercase(section_header(ls[h])->0),
            nonblank_between(ls, h + 1, next_header(ls, h + 1)),
        ) == expansion(ls, a, next_header(ls, h + 1)),
    decreases h - a,
{
    lemma_next_header(ls, h + 1);
    let c = next_header(ls, h + 1);
    let w = write_sections(
        lowercase(section_header(ls[h])->0),
        nonblank_between(ls, h + 1, c),
    );
    if a == h {
        assert(expansion(ls, c, c) =~= Seq::<Seq<char>>::empty());
        assert(expansion(ls, h, h) =~= Seq::<Seq<char>>::empty());
        assert(expansion(ls, h, c) == w + expansion(ls, c, c));
        assert(Seq::<Seq<char>>::empty() + w =~= w + Seq::<Seq<char>>::empty());
    } else {
        lemma_next_header(ls, a + 1);
        let n = next_header(ls, a + 1);
        assert(n <= h) by {
            if n > h {
                assert(section_header(ls[h]) is None);
            }
        }
        lemma_expansion_split(ls, n, h);
        let wa = write_sections(
            lowercase(section_header(ls[a])->0),
            nonblank_between(ls, a + 1, n),
        );
        assert(expansion(ls, a, h) == wa + expansion(ls, n, h));
        assert(expansion(ls, a, c) == wa + expansion(ls, n, c));
        assert(wa + expansion(ls, n, h) + w =~= wa + (expansion(ls, n, h) + w));
    }
}

/// The state of header expansion after the first `k` lines: before any header,
/// nothing written and the non-blank lines kept; after one, the sections of
/// the earlier headers written, the last header open with its non-blank lines.
proof fn lemma_expand_state_at(ls: Seq<Seq<char>>, k: int)
    requires
        0 <= k <= ls.len(),
        forall|j: int|
            0 <= j < ls.len() && section_header(#[trigger] ls[j]) is Some ==> lowercase(
                section_header(ls[j])->0,
            ).len() > 0,
    ensures
        last_header(ls, k) < 0 ==> expand_state(ls.take(k)) == (
            Seq::<char>::empty(),
            nonblank_between(ls, 0, k),
            Seq::<Seq<char>>::empty(),
        ),
        last_header(ls, k) >= 0 ==> expand_state(ls.take(k)) == (
            lowercase(section_header(ls[last_header(ls, k)])->0),
            nonblank_between(ls, last_header(ls, k) + 1, k),
            expansion(ls, next_header(ls, 0), last_header(ls, k)),
        ),
    decreases k,
{
    lemma_last_header(ls, k);
    if k == 0 {
        assert(ls.take(0) =~= Seq::<Seq<char>>::empty());
        assert(nonblank_between(ls, 0, 0) =~= Seq::<Seq<char>>::empty());
    } else {
        let i = k - 1;
        lemma_expand_state_at(ls, i);
        lemma_last_header(ls, i);
        assert(ls.take(k).drop_last() =~= ls.take(i));
        assert(ls.take(k).last() == ls[i]);
        let lh = last_header(ls, i);
        let st = expand_state(ls.take(i));
        if section_header(ls[i]) is Some {
            assert(last_header(ls, k) == i);
            lemma_next_header(ls, 0);
            if lh < 0 {
                assert(next_header(ls, 0) == i) by {
                    if next_header(ls, 0) < i {
                        assert(section_header(ls[next_header(ls, 0)]) is Some);
                    }
                }
                assert(expansion(ls, i, i) =~= Seq::<Seq<char>>::empty());
            } else {
                let f = next_header(ls, 0);
                assert(f <= lh) by {
                    if f > lh {
                        assert(section_header(ls[lh]) is None);
                    }
                }
                assert(section_header(ls[f]) is Some);
                lemma_next_header(ls, lh + 1);
                assert(next_header(ls, lh + 1) == i) by {
                    if next_header(ls, lh + 1) < i {
                        assert(section_header(ls[next_header(ls, lh + 1)]) is Some);
                    }
                }
                lemma_expansion_split(ls, f, lh);
                assert(st.0.len() > 0);
            }
            assert(nonblank_between(ls, i + 1, k) =~= Seq::<Seq<char>>::empty());
        } else {
            assert(last_header(ls, k) == lh);
            if lh < 0 {
                lemma_nonblank_push(ls, 0, i);
            } else {
                lemma_nonblank_push(ls, lh + 1, i);
            }
        }
    }
}

/// Header expansion in general: once the first section header is met, every
/// header is written out as one header line `[<name>]` per comma-separated
/// name of its text (the text in lower case, each name trimmed), each
/// followed by the non-blank lines up to the next header,
/// copied as they stand; blank lines and the lines before the first header are
/// dropped. The lower case form of a header's text is taken to be non-empty,
/// as it is for `str::to_lowercase` of a non-empty text.
pub proof fn lemma_expanded_lines_shape(ls: Seq<Seq<char>>)
    requires
        next_header(ls, 0) < ls.len(),
        forall|j: int|
            0 <= j < ls.len() && section_header(#[trigger] ls[j]) is Some ==> lowercase(
                section_header(ls[j])->0,
            ).len() > 0,
    ensures
        expanded_lines(ls) == expansion(ls, next_header(ls, 0), ls.len() as int),
{
    let n = ls.len() as int;
    lemma_expand_state_at(ls, n);
    lemma_last_header(ls, n);
    lemma_next_header(ls, 0);
    assert(ls.take(n) =~= ls);
    let f = next_header(ls, 0);
    let lh = last_header(ls, n);
    assert(section_header(ls[f]) is Some);
    assert(lh >= f) by {
        if lh < f {
            assert(section_header(ls[f]) is None);
        }
    }
    lemma_next_header(ls, lh + 1);
    assert(next_header(ls, lh + 1) == n) by {
        if next_header(ls, lh + 1) < n {
            assert(section_header(ls[next_header(ls, lh + 1)]) is Some);
        }
    }
    lemma_expansion_split(ls, f, lh);
}

/// The name, first scope and second scope of a section header
/// `<sectionname>[.<scope1>[.<scope2>]]`, each in lower case.
pub open spec fn header_parts(name: Seq<char>) -> Option<
    (Seq<char>, Option<Seq<char>>, Option<Seq<char>>),
> {
    let p = split(name, seq!['.']);
    if p.len() == 1 {
        Some((lowercase(p[0]), None, None))
    } else if p.len() == 2 {
        Some((lowercase(p[0]), Some(lowercase(p[1])), None))
    } else if p.len() == 3 {
        Some((lowercase(p[0]), Some(lowercase(p[1])), Some(lowercase(p[2]))))
    } else {
        None
    }
}

/// Why reading stopped at a section header.
pub enum HeaderProblem {
    /// The header has more than two scopes.
    BadName(Seq<char>),
    /// The file kind does not support the named section.
    Unknown(Seq<char>),
}

/// A section to read: its reader, name, scopes and lines.
pub type SectionPlan = (
    SectionParser,
    Seq<char>,
    Option<Seq<char>>,
    Option<Seq<char>>,
    Seq<(Seq<char>, Option<Seq<char>>)>,
);

/// Whether reading stops after these sections: a header was refused, or the
/// lines of the last section could not all be read.
pub open spec fn plan_stopped(p: (Seq<SectionPlan>, Option<HeaderProblem>)) -> bool {
    p.1 is Some || (p.0.len() > 0 && p.0.last().0.spec_rows(p.0.last().4).1 is Some)
}

/// The sections of an INI document that are read, in order, with the readers
/// that `table` gives; reading stops at the first section whose header is
/// refused or whose lines cannot all be read.
pub open spec fn sections_plan(
    table: Seq<(Seq<char>, SectionParser)>,
    secs: Seq<(Seq<char>, Seq<(Seq<char>, Option<Seq<char>>)>)>,
) -> (Seq<SectionPlan>, Option<HeaderProblem>)
    decreases secs.len(),
{
    if secs.len() == 0 {
        (Seq::<SectionPlan>::empty(), None)
    } else {
        let prev = sections_plan(table, secs.drop_last());
        if plan_stopped(prev) {
            prev
        } else {
            let (name, lines) = secs.last();
            match header_parts(name) {
                None => (prev.0, Some(HeaderProblem::BadName(name))),
                Some((sn, s1, s2)) => match spec_lookup(table, sn) {
                    None => (prev.0, Some(HeaderProblem::Unknown(sn))),
                    Some(p) => (prev.0.push((p, sn, s1, s2, lines)), None),
                },
            }
        }
    }
}

/// What reading a file gave: the rows of the sections read, in order, and
/// the header that stopped the reading, if one did. A section whose lines
/// could not all be read is the last, and holds its own error.
#[derive(Debug)]
pub struct ParseOutcome {
    /// The sections read, in order.
    pub sections: Vec<SectionRows>,
    /// The error of the header that stopped the reading, if one did.
    pub error: Option<Error>,
}

impl ParseOutcome {
    /// This outcome is the one that `plan` says.
    pub open spec fn follows(self, plan: (Seq<SectionPlan>, Option<HeaderProblem>)) -> bool {
        &&& self.sections.len() == plan.0.len()
        &&& forall|i: int|
            0 <= i < plan.0.len() ==> (#[trigger] self.sections@[i]).describes(
                plan.0[i].0,
                plan.0[i].4,
                plan.0[i].1,
                plan.0[i].2,
                plan.0[i].3,
            )
        &&& match plan.1 {
            None => self.error is None,
            Some(HeaderProblem::BadName(n)) => self.error matches Some(e) && e.is_invalid_format(
                "<sectionname>[.<scope1>[.<scope2]]"@,
                n,
            ),
            Some(HeaderProblem::Unknown(n)) => self.error matches Some(e) && e.is_unknown_section(
                n,
            ),
        }
    }
}

/// What the INI reader makes of the lines joined by line feeds.
pub open spec fn ini_plan(table: Seq<(Seq<char>, SectionParser)>, lines: Seq<Seq<char>>) -> (
    Seq<SectionPlan>,
    Option<HeaderProblem>,
) {
    match ini_sections(join(lines, "\n"@)) {
        Some(secs) => sections_plan(table, secs),
        None => (Seq::<SectionPlan>::empty(), None),
    }
}

/// What reading the text `content` as a file of a kind with the sections
/// `table` gives: the lines of the text, headers expanded, macros replaced,
/// then read as an INI document section by section.
pub open spec fn parse_plan(table: Seq<(Seq<char>, SectionParser)>, content: Seq<char>) -> (
    Seq<SectionPlan>,
    Option<HeaderProblem>,
) {
    ini_plan(table, replaced_lines(expanded_lines(lines_of(content))))
}

/// The reader of a description file of the kind `T`.
pub struct ConfigParser<T: Config> {
    /// The kind of file that is read.
    pub config: T,
    /// Whether reading goes on past errors.
    pub no_fail_mode: bool,
    /// The lines of the file between the steps of reading it.
    pub lines: Option<Vec<String>>,
}

/// The reader of module information files.
pub type InfParser = ConfigParser<Inf>;

/// The reader of platform description files.
pub type DscParser = ConfigParser<Dsc>;

/// Once reading has stopped, later sections change nothing.
pub proof fn lemma_plan_stays(
    table: Seq<(Seq<char>, SectionParser)>,
    secs: Seq<(Seq<char>, Seq<(Seq<char>, Option<Seq<char>>)>)>,
    j: int,
)
    requires
        0 <= j <= secs.len(),
        plan_stopped(sections_plan(table, secs.take(j))),
    ensures
        sections_plan(table, secs) == sections_plan(table, secs.take(j)),
    decreases secs.len() - j,
{
    if j < secs.len() {
        assert(secs.take(j + 1).drop_last() =~= secs.take(j));
        lemma_plan_stays(table, secs, j + 1);
    } else {
        assert(secs.take(j) =~= secs);
    }
}

/// A section header `<name>[.<scope1>[.<scope2>]]` is read part by part in
/// the order in which the parts stand, each in lower case: the first part is
/// the section's name, the second its first scope, the third its second scope;
/// a header of more than three parts is not read.
pub proof fn lemma_header_parts_in_order(name: Seq<char>)
    ensures
        ({
            let p = split(name, seq!['.']);
            &&& p.len() == 1 ==> header_parts(name) == Some(
                (lowercase(p[0]), None::<Seq<char>>, None::<Seq<char>>),
            )
            &&& p.len() == 2 ==> header_parts(name) == Some(
                (lowercase(p[0]), Some(lowercase(p[1])), None::<Seq<char>>),
            )
            &&& p.len() == 3 ==> header_parts(name) == Some(
                (lowercase(p[0]), Some(lowercase(p[1])), Some(lowercase(p[2]))),
            )
            &&& p.len() > 3 ==> header_parts(name) is None
        }),
{
    lemma_split_nonempty(name, seq!['.']);
}

/// Whether a section header is refused: it has more than two scopes, or names
/// a section that `table` does not hold.
pub open spec fn header_refused(table: Seq<(Seq<char>, SectionParser)>, name: Seq<char>) -> bool {
    match header_parts(name) {
        None => true,
        Some(h) => spec_lookup(table, h.0) is None,
    }
}

/// The reader of the section that a header names, if the header is accepted.
pub open spec fn header_reader(table: Seq<(Seq<char>, SectionParser)>, name: Seq<char>) -> Option<
    SectionParser,
> {
    match header_parts(name) {
        None => None,
        Some(h) => spec_lookup(table, h.0),
    }
}

/// Reading stops at the first refused header: the sections before it are read
/// as they were, none after it is, and the header's problem is reported.
pub proof fn lemma_plan_stops_at_refused_header(
    table: Seq<(Seq<char>, SectionParser)>,
    secs: Seq<(Seq<char>, Seq<(Seq<char>, Option<Seq<char>>)>)>,
    j: int,
)
    requires
        0 <= j < secs.len(),
        !plan_stopped(sections_plan(table, secs.take(j))),
        header_refused(table, secs[j].0),
    ensures
        sections_plan(table, secs).0 == sections_plan(table, secs.take(j)).0,
        sections_plan(table, secs).1 == Some(
            match header_parts(secs[j].0) {
                None => HeaderProblem::BadName(secs[j].0),
                Some(h) => HeaderProblem::Unknown(h.0),
            },
        ),
{
    assert(secs.take(j + 1).drop_last() =~= secs.take(j));
    assert(secs.take(j + 1).last() == secs[j]);
    lemma_plan_stays(table, secs, j + 1);
}

/// When no header is refused and every line can be read, every section is
/// read, in order, each with its reader, its name and scopes, and its lines.
pub proof fn lemma_plan_reads_all(
    table: Seq<(Seq<char>, SectionParser)>,
    secs: Seq<(Seq<char>, Seq<(Seq<char>, Option<Seq<char>>)>)>,
)
    requires
        forall|i: int| 0 <= i < secs.len() ==> !header_refused(table, #[trigger] secs[i].0),
        forall|i: int|
            0 <= i < secs.len() ==> (header_reader(table, #[trigger] secs[i].0)->0).spec_rows(
                secs[i].1,
            ).1 is None,
    ensures
        sections_plan(table, secs).1 is None,
        sections_plan(table, secs).0.len() == secs.len(),
        forall|i: int|
            0 <= i < secs.len() ==> {
                let p = split(secs[i].0, seq!['.']);
                &&& (#[trigger] sections_plan(table, secs).0[i]).1 == lowercase(p[0])
                &&& sections_plan(table, secs).0[i].2 == if p.len() >= 2 {
                    Some(lowercase(p[1]))
                } else {
                    None
                }
                &&& sections_plan(table, secs).0[i].3 == if p.len() == 3 {
                    Some(lowercase(p[2]))
                } else {
                    None
                }
                &&& sections_plan(table, secs).0[i].4 == secs[i].1
            },
        forall|i: int|
            0 <= i < secs.len() ==> {
                let h = header_parts(secs[i].0)->0;
                #[trigger] sections_plan(table, secs).0[i] == (
                    spec_lookup(table, h.0)->0,
                    h.0,
                    h.1,
                    h.2,
                    secs[i].1,
                )
            },
    decreases secs.len(),
{
    if secs.len() > 0 {
        let init = secs.drop_last();
        assert forall|i: int| 0 <= i < init.len() implies !header_refused(table, #[trigger] init[i].0) by {
            assert(init[i] == secs[i]);
        }
        assert forall|i: int| 0 <= i < init.len() implies (header_reader(
            table,
            #[trigger] init[i].0,
        )->0).spec_rows(init[i].1).1 is None by {
            assert(init[i] == secs[i]);
        }
        lemma_plan_reads_all(table, init);
        let last = secs.last();
        assert(!header_refused(table, secs[secs.len() - 1].0));
        let prev = sections_plan(table, init);
        assert(prev.0.len() > 0 ==> prev.0.last() == prev.0[prev.0.len() - 1]);
        assert forall|i: int| 0 <= i < secs.len() implies {
            let h = header_parts(secs[i].0)->0;
            #[trigger] sections_plan(table, secs).0[i] == (
                spec_lookup(table, h.0)->0,
                h.0,
                h.1,
                h.2,
                secs[i].1,
            )
        } by {
            if i < init.len() {
                assert(init[i] == secs[i]);
            }
        }
        assert forall|i: int| 0 <= i < secs.len() implies {
            let p = split(secs[i].0, seq!['.']);
            &&& (#[trigger] sections_plan(table, secs).0[i]).1 == lowercase(p[0])
            &&& sections_plan(table, secs).0[i].2 == if p.len() >= 2 {
                Some(lowercase(p[1]))
            } else {
                None
            }
            &&& sections_plan(table, secs).0[i].3 == if p.len() == 3 {
                Some(lowercase(p[2]))
            } else {
                None
            }
            &&& sections_plan(table, secs).0[i].4 == secs[i].1
        } by {
            lemma_header_parts_in_order(secs[i].0);
            assert(!header_refused(table, secs[i].0));
            if i < init.len() {
                assert(init[i] == secs[i]);
            }
        }
    }
}

impl<T: Config> core::default::Default for ConfigParser<T> {
    /// The same reader as `new` gives.
    fn default() -> (r: Self)
        ensures
            r.lines is None,
            !r.no_fail_mode,
    {
        Self::new()
    }
}

impl<T: Config> ConfigParser<T> {
    /// A reader that holds no lines yet.
    pub fn new() -> (r: Self)
        ensures
            r.lines is None,
            !r.no_fail_mode,
    {
        ConfigParser { config: T::default(), lines: None, no_fail_mode: false }
    }

    /// The sections to search, in order, for a macro used in the section `search`.
    pub fn create_search_patterns(&self, search: String) -> (r: Vec<String>)
        ensures
            r.deep_view() == search_patterns(search@),
    {
        let sections = split_strings(search.as_str(), &['.']);
        assert(seq!['.'] =~= ['.']@);
        let mut pattern: Vec<String> = Vec::new();
        if sections.len() == 3 {
            pattern.push(join_strings(&sections, "."));
            if !text_eq(sections[1].as_str(), "common") {
                pattern.push(sections[0].clone().concat(".common.").concat(sections[2].as_str()));
                pattern.push(sections[0].clone().concat(".").concat(sections[1].as_str()));
            }
        } else if sections.len() == 2 {
            if !text_eq(sections[1].as_str(), "common") {
                pattern.push(sections[0].clone().concat(".").concat(sections[1].as_str()));
            }
        }
        if 1 <= sections.len() && sections.len() <= 3 {
            pattern.push(sections[0].clone().concat(".common"));
            pattern.push(sections[0].clone());
        }
        assert(pattern.deep_view() =~= search_patterns(search@));
        pattern
    }

    /// The value of the macro `macro_name` used in the section `current_section`.
    pub fn replace_macro(
        &self,
        macro_name: String,
        macro_map: &MacroMap,
        current_section: String,
    ) -> (r: Option<String>)
        ensures
            r.deep_view() == macro_value(macro_map@, current_section@, macro_name@),
    {
        let ghost sec = current_section@;
        let mut patterns = self.create_search_patterns(current_section);
        let ghost first = patterns.deep_view();
        patterns.push(String::from_str("defines"));
        let ghost pats = patterns.deep_view();
        assert(pats =~= first.push("defines"@));
        let mut i: usize = 0;
        assert(pats.skip(0) =~= pats);
        while i < patterns.len()
            invariant
                i <= patterns.len(),
                pats == patterns.deep_view(),
                pats == search_patterns(sec).push("defines"@),
                sec == current_section@,
                find_macro(macro_map@, pats.skip(i as int), macro_name@) == find_macro(
                    macro_map@,
                    pats,
                    macro_name@,
                ),
            decreases patterns.len() - i,
        {
            assert(pats.skip(i as int)[0] == pats[i as int]);
            if let Some(value) = macro_map.get(&patterns[i], &macro_name) {
                return Some(value);
            }
            assert(pats.skip(i as int).drop_first() =~= pats.skip(i + 1));
            i += 1;
        }
        assert(pats.skip(i as int).len() == 0);
        None
    }

    /// Appends, for each name in `sections` (separated by commas), its header
    /// `[name]` followed by all of `contents`.
    pub fn write_document_sections(&self, output: &mut Vec<String>, sections: &str, contents: &Vec<String>)
        ensures
            final(output).deep_view() == old(output).deep_view() + write_sections(
                sections@,
                contents.deep_view(),
            ),
    {
        let parts = split_strings(sections, &[',']);
        assert(seq![','] =~= [',']@);
        let ghost ps = parts.deep_view();
        let ghost start = output.deep_view();
        let mut i: usize = 0;
        assert(ps.take(0) =~= Seq::<Seq<char>>::empty());
        assert(start + Seq::<Seq<char>>::empty() =~= start);
        while i < parts.len()
            invariant
                i <= parts.len(),
                ps == parts.deep_view(),
                output.deep_view() == start + sections_written(ps.take(i as int), contents.deep_view()),
            decreases parts.len() - i,
        {
            let header = String::from_str("[").concat(trim_str(parts[i].as_str()).as_str()).concat("]");
            let ghost before = output.deep_view();
            output.push(header);
            let mut k: usize = 0;
            assert(output.deep_view() =~= before + seq![bracketed(ps[i as int])]);
            assert(contents.deep_view().take(0) =~= Seq::<Seq<char>>::empty());
            while k < contents.len()
                invariant
                    k <= contents.len(),
                    output.deep_view() == before + seq![bracketed(ps[i as int])] + contents.deep_view().take(k as int),
                decreases contents.len() - k,
            {
                let ghost b2 = output.deep_view();
                output.push(contents[k].clone());
                assert(output.deep_view() =~= b2.push(contents[k as int]@));
                k += 1;
                assert(contents.deep_view().take(k as int) =~= contents.deep_view().take(k - 1).push(contents.deep_view()[k - 1]));
                assert(output.deep_view() =~= before + seq![bracketed(ps[i as int])] + contents.deep_view().take(k as int));
            }
            assert(contents.deep_view().take(k as int) =~= contents.deep_view());
            assert(ps.take(i + 1).drop_last() =~= ps.take(i as int));
            i += 1;
            assert(output.deep_view() =~= start + sections_written(ps.take(i as int), contents.deep_view()));
        }
        assert(ps.take(i as int) =~= ps);
    }

    /// Writes out every header that names several sections as one header per
    /// section, each followed by the section's lines.
    pub fn expand_document(&mut self) -> (r: crate::error::Result<()>)
        requires
            old(self).lines is Some,
        ensures
            r is Ok,
            final(self).lines matches Some(l) && l.deep_view() == expanded_lines(
                old(self).lines->0.deep_view(),
            ),
            final(self).config == old(self).config,
            final(self).no_fail_mode == old(self).no_fail_mode,
    {
        let lines = match self.lines.take() {
            Some(l) => l,
            None => Vec::new(),
        };
        let ghost ls = lines.deep_view();
        let mut output: Vec<String> = Vec::new();
        let mut current_section = String::new();
        let mut section_contents: Vec<String> = Vec::new();
        let mut i: usize = 0;
        assert(ls.take(0) =~= Seq::<Seq<char>>::empty());
        assert(output.deep_view() =~= Seq::<Seq<char>>::empty());
        assert(section_contents.deep_view() =~= Seq::<Seq<char>>::empty());
        while i < lines.len()
            invariant
                i <= lines.len(),
                ls == lines.deep_view(),
                expand_state(ls.take(i as int)) == (
                    current_section@,
                    section_contents.deep_view(),
                    output.deep_view(),
                ),
            decreases lines.len() - i,
        {
            let line = &lines[i];
            assert(ls.take(i + 1).drop_last() =~= ls.take(i as int));
            assert(ls.take(i + 1).last() == line@);
            match parse_section_header(line.as_str()) {
                Some(captured) => {
                    if current_section.as_str().unicode_len() > 0 {
                        self.write_document_sections(&mut output, current_section.as_str(), &section_contents);
                    }
                    current_section = to_lowercase(captured.as_str());
                    section_contents = Vec::new();
                    assert(section_contents.deep_view() =~= Seq::<Seq<char>>::empty());
                },
                None => {
                    if trim_str(line.as_str()).as_str().unicode_len() > 0 {
                        let ghost before = section_contents.deep_view();
                        section_contents.push(line.clone());
                        assert(section_contents.deep_view() =~= before.push(line@));
                    }
                },
            }
            i += 1;
        }
        assert(ls.take(i as int) =~= ls);
        self.write_document_sections(&mut output, current_section.as_str(), &section_contents);
        self.lines = Some(output);
        Ok(())
    }

    /// Drops the macro definitions and replaces the macro references outside
    /// double quotes.
    pub fn replace_macros(&mut self) -> (r: crate::error::Result<()>)
        requires
            old(self).lines is Some,
        ensures
            r is Ok,
            final(self).lines matches Some(l) && l.deep_view() == replaced_lines(
                old(self).lines->0.deep_view(),
            ),
            final(self).config == old(self).config,
            final(self).no_fail_mode == old(self).no_fail_mode,
    {
        let lines = match self.lines.take() {
            Some(l) => l,
            None => Vec::new(),
        };
        let ghost ls = lines.deep_view();
        let mut output: Vec<String> = Vec::new();
        let mut macro_map = MacroMap::new();
        let mut current_section = String::new();
        let mut i: usize = 0;
        assert(ls.take(0) =~= Seq::<Seq<char>>::empty());
        assert(output.deep_view() =~= Seq::<Seq<char>>::empty());
        while i < lines.len()
            invariant
                i <= lines.len(),
                ls == lines.deep_view(),
                macro_state(ls.take(i as int)) == (current_section@, macro_map@, output.deep_view()),
            decreases lines.len() - i,
        {
            let line = &lines[i];
            assert(ls.take(i + 1).drop_last() =~= ls.take(i as int));
            assert(ls.take(i + 1).last() == line@);
            let ghost before = output.deep_view();
            let trimmed = trim_str(line.as_str());
            let tv = chars_of(trimmed.as_str());
            if tv.len() == 0 || tv[0] == '#' {
                output.push(line.clone());
                assert(output.deep_view() =~= before.push(line@));
            } else {
                match parse_section_header(line.as_str()) {
                    Some(captured) => {
                        current_section = captured;
                        output.push(line.clone());
                        assert(output.deep_view() =~= before.push(line@));
                    },
                    None => match parse_define_line(line.as_str()) {
                        Some((name, value)) => {
                            macro_map.insert(to_lowercase(current_section.as_str()), name, value);
                        },
                        None => {
                            let section = to_lowercase(current_section.as_str());
                            let new_line = self.substitute_line(line, &macro_map, &section);
                            output.push(new_line);
                            assert(output.deep_view() =~= before.push(new_line@));
                        },
                    },
                }
            }
            i += 1;
        }
        assert(ls.take(i as int) =~= ls);
        self.lines = Some(output);
        Ok(())
    }

    /// Reads the sections of an INI document, as `sections_plan` says.
    pub fn parse_sections(&self, sections: &Vec<(String, Vec<(String, Option<String>)>)>) -> (r: ParseOutcome)
        ensures
            r.follows(sections_plan(T::spec_supported_sections(), sections.deep_view())),
    {
        let table = self.config.supported_sections();
        let ghost secs = sections.deep_view();
        let ghost tab = T::spec_supported_sections();
        let mut out: Vec<SectionRows> = Vec::new();
        let mut i: usize = 0;
        assert(secs.take(0) =~= Seq::<(Seq<char>, Seq<(Seq<char>, Option<Seq<char>>)>)>::empty());
        while i < sections.len()
            invariant
                i <= sections.len(),
                secs == sections.deep_view(),
                tab == T::spec_supported_sections(),
                table.deep_view() == tab,
                !plan_stopped(sections_plan(tab, secs.take(i as int))),
                (ParseOutcome { sections: out, error: None }).follows(sections_plan(tab, secs.take(i as int))),
            decreases sections.len() - i,
        {
            assert(secs.take(i + 1).drop_last() =~= secs.take(i as int));
            assert(secs.take(i + 1).last() == secs[i as int]);
            let ghost prev = sections_plan(tab, secs.take(i as int));
            let (section_name, section) = &sections[i];
            let parts = split_strings(section_name.as_str(), &['.']);
            assert(seq!['.'] =~= ['.']@);
            if parts.len() < 1 || parts.len() > 3 {
                let error = Error::InvalidFormat(
                    String::from_str("<sectionname>[.<scope1>[.<scope2]]"),
                    section_name.clone(),
                );
                proof {
                    lemma_plan_stays(tab, secs, i as int + 1);
                }
                return ParseOutcome { sections: out, error: Some(error) };
            }
            let name = to_lowercase(parts[0].as_str());
            let scope1 = if parts.len() >= 2 {
                Some(to_lowercase(parts[1].as_str()))
            } else {
                None
            };
            let scope2 = if parts.len() == 3 {
                Some(to_lowercase(parts[2].as_str()))
            } else {
                None
            };
            match lookup(&table, &name) {
                None => {
                    proof {
                        lemma_plan_stays(tab, secs, i as int + 1);
                    }
                    return ParseOutcome { sections: out, error: Some(Error::UnknownSection(name)) };
                },
                Some(p) => {
                    let rows = p.parse_rows(section, &name, &scope1, &scope2);
                    let failed = rows.error.is_some();
                    let ghost before = out@;
                    out.push(rows);
                    assert(out@ =~= before.push(rows));
                    i += 1;
                    assert((ParseOutcome { sections: out, error: None }).follows(
                        sections_plan(tab, secs.take(i as int)),
                    ));
                    if failed {
                        proof {
                            lemma_plan_stays(tab, secs, i as int);
                            assert(secs.take(i as int) =~= secs.take(i as int));
                        }
                        return ParseOutcome { sections: out, error: None };
                    }
                },
            }
        }
        assert(secs.take(i as int) =~= secs);
        ParseOutcome { sections: out, error: None }
    }

    /// Reads the lines as an INI document and its sections into rows.
    pub fn parse_config(&mut self) -> (r: ParseOutcome)
        requires
            old(self).lines is Some,
        ensures
            r.follows(ini_plan(T::spec_supported_sections(), old(self).lines->0.deep_view())),
            final(self).lines is None,
            final(self).config == old(self).config,
            final(self).no_fail_mode == old(self).no_fail_mode,
    {
        let lines = match self.lines.take() {
            Some(l) => l,
            None => Vec::new(),
        };
        let text = join_strings(&lines, "\n");
        match read_ini(text) {
            Some(sections) => self.parse_sections(&sections),
            None => {
                let r = ParseOutcome { sections: Vec::new(), error: None };
                assert(r.sections@.len() == 0);
                r
            },
        }
    }

    /// The conditional directives are left in place.
    pub fn process_conditionals(&mut self) -> (r: crate::error::Result<()>)
        ensures
            r is Ok,
            *final(self) == *old(self),
    {
        Ok(())
    }

    /// Reads the text of a description file into the rows of its sections.
    pub fn parse(&mut self, content: String) -> (r: ParseOutcome)
        ensures
            r.follows(parse_plan(T::spec_supported_sections(), content@)),
            final(self).lines is None,
            final(self).config == old(self).config,
            final(self).no_fail_mode == old(self).no_fail_mode,
    {
        self.lines = Some(lines(content.as_str()));
        if self.config.has_conditionals() {
            let _ = self.process_conditionals();
        }
        let _ = self.expand_document();
        let _ = self.replace_macros();
        self.parse_config()
    }

    /// `line` with its macro references replaced as `substitute` says.
    fn substitute_line(&self, line: &String, macro_map: &MacroMap, section: &String) -> (r: String)
        ensures
            r@ == substitute(line@, macro_map@, section@),
    {
        let v = chars_of(line.as_str());
        let mut out = String::new();
        let mut i: usize = 0;
        let mut quoted = false;
        assert(v@.skip(0) =~= v@);
        while i < v.len()
            invariant
                i <= v.len(),
                v@ == line@,
                out@ + substitute_from(v@.skip(i as int), macro_map@, section@, quoted) == substitute(
                    line@,
                    macro_map@,
                    section@,
                ),
            decreases v.len() - i,
        {
            let ghost rest = v@.skip(i as int);
            let ghost q0 = quoted;
            if v[i] == '"' || quoted {
                assert(rest[0] == v@[i as int]);
                out.append(string_of(&v, i, i + 1).as_str());
                assert(v@.subrange(i as int, i + 1) =~= seq![v@[i as int]]);
                assert(rest.drop_first() =~= v@.skip(i + 1));
                if v[i] == '"' {
                    quoted = !quoted;
                }
                i += 1;
                assert(out@ + substitute_from(v@.skip(i as int), macro_map@, section@, quoted) =~= substitute(
                    line@,
                    macro_map@,
                    section@,
                ));
                continue;
            }
            let mut found: Option<usize> = None;
            if i + 1 < v.len() && v[i] == '$' && v[i + 1] == '(' {
                assert(rest.skip(2) =~= v@.subrange(i + 2, v.len() as int));
                proof {
                    lemma_find_char_bound(rest.skip(2), ')');
                }
                match find_in(&v, i + 2, v.len(), ')') {
                    Some(j) => if j > i + 2 {
                        found = Some(j);
                    },
                    None => {},
                }
            }
            match found {
                Some(j) => {
                    let name = string_of(&v, i + 2, j);
                    assert(rest.subrange(2, 2 + (j - (i + 2))) =~= name@);
                    match self.replace_macro(name, macro_map, section.clone()) {
                        Some(value) => {
                            out.append(value.as_str());
                        },
                        None => {
                            let unchanged = string_of(&v, i, j + 1);
                            assert(rest.take(j + 1 - i) =~= unchanged@);
                            out.append(unchanged.as_str());
                        },
                    }
                    assert(rest.skip(j + 1 - i) =~= v@.skip(j + 1));
                    i = j + 1;
                },
                None => {
                    assert(rest[0] == v@[i as int]);
                    out.append(string_of(&v, i, i + 1).as_str());
                    assert(v@.subrange(i as int, i + 1) =~= seq![v@[i as int]]);
                    assert(rest.drop_first() =~= v@.skip(i + 1));
                    i += 1;
                },
            }
            assert(out@ + substitute_from(v@.skip(i as int), macro_map@, section@, quoted) =~= substitute(
                line@,
                macro_map@,
                section@,
            ));
        }
        assert(v@.skip(i as int) =~= Seq::<char>::empty());
        assert(out@ + Seq::<char>::empty() =~= out@);
        out
    }
}

} // verus!
