//! Rendered entries read back: the text that `to_string` gives for an entry
//! is a line that the entry's reader turns into the same entry again, as long
//! as no field holds a delimiter of the line or blanks at its ends.

use vstd::prelude::*;
use crate::shapes::{
    binary_shape, build_option_shape, option_delimiters, patch_pcd_shape, pcd_shape, pipe,
    pipe_pieces, two_field_shape,
};
use crate::text::{
    find_char, lemma_find_char, lemma_split_concat, lemma_split_single, lemma_trim_space_after,
    lemma_trim_space_before, split, split_once, trim,
};
use crate::section::{
    opt_prefix, opt_suffix, BinaryEntry, BuildOptionEntry, DefineEntry, DepexEntry,
    FeaturePcdEntry, FixedPcdEntry, GuidEntry, LibraryClassEntry, PackageEntry, PatchPcdEntry,
    PcdEntry, PcdExEntry, PpiEntry, ProtocolEntry, SourceEntry, UserExtensionEntry,
};

verus! {

/// A field that reads back as itself between `|`s: no blanks at its ends and no `|` in it.
pub open spec fn plain_field(s: Seq<char>) -> bool {
    trim(s) == s && !s.contains('|')
}

/// An optional field that is absent or plain.
pub open spec fn plain_opt(o: Option<Seq<char>>) -> bool {
    match o {
        Some(s) => plain_field(s),
        None => true,
    }
}

/// A part of a build option name: no blanks at its ends, no `:` and no `_` in it.
pub open spec fn plain_name_part(s: Seq<char>) -> bool {
    trim(s) == s && !s.contains(':') && !s.contains('_')
}

/// The name of a build option, as its rendering writes it before ` = `.
pub open spec fn build_option_name(
    e: (Option<Seq<char>>, Seq<char>, Seq<char>, Seq<char>, Seq<char>, Seq<char>, Seq<char>),
) -> Seq<char> {
    opt_prefix(e.0, ":"@) + e.1 + "_"@ + e.2 + "_"@ + e.3 + "_"@ + e.4 + "_"@ + e.5
}

/// A text without `c` shares no character with a one-letter delimiter set `{c}`.
proof fn lemma_free_of_one(s: Seq<char>, c: char)
    requires
        !s.contains(c),
    ensures
        forall|k: int| 0 <= k < s.len() ==> !seq![c].contains(#[trigger] s[k]),
{
    assert forall|k: int| 0 <= k < s.len() implies !seq![c].contains(#[trigger] s[k]) by {
        if seq![c].contains(s[k]) {
            let j = choose|j: int| 0 <= j < 1 && seq![c][j] == s[k];
            assert(s[k] == c);
        }
    }
}

/// A text without `:` and `_` shares no character with the build option delimiters.
proof fn lemma_free_of_option_delimiters(s: Seq<char>)
    requires
        !s.contains(':'),
        !s.contains('_'),
    ensures
        forall|k: int| 0 <= k < s.len() ==> !option_delimiters().contains(#[trigger] s[k]),
{
    assert forall|k: int| 0 <= k < s.len() implies !option_delimiters().contains(#[trigger] s[k]) by {
        if option_delimiters().contains(s[k]) {
            let j = choose|j: int| 0 <= j < 2 && option_delimiters()[j] == s[k];
            assert(s[k] == ':' || s[k] == '_');
        }
    }
}

/// Neither part holds `c`, so their concatenation does not either.
proof fn lemma_concat_without(a: Seq<char>, b: Seq<char>, c: char)
    requires
        !a.contains(c),
        !b.contains(c),
    ensures
        !(a + b).contains(c),
{
    if (a + b).contains(c) {
        let k = choose|k: int| 0 <= k < (a + b).len() && (a + b)[k] == c;
        if k < a.len() {
            assert(a[k] == c);
        } else {
            assert(b[k - a.len()] == c);
        }
    }
}

/// A text without `|` is one piece.
proof fn lemma_one_piece(s: Seq<char>)
    requires
        !s.contains('|'),
    ensures
        pipe_pieces(s) == seq![s],
{
    lemma_free_of_one(s, '|');
    lemma_split_single(s, pipe());
}

/// The pieces of `a|b` are those of `a` followed by those of `b`.
proof fn lemma_pipe_pieces_concat(a: Seq<char>, b: Seq<char>)
    ensures
        pipe_pieces(a + "|"@ + b) == pipe_pieces(a) + pipe_pieces(b),
{
    reveal_strlit("|");
    assert(pipe()[0] == '|');
    assert(a + "|"@ =~= a + seq!['|']);
    lemma_split_concat(a, '|', b, pipe());
}

/// `a` then `|b` for a present `b` reads back as the pieces `a` and `b`.
proof fn lemma_pieces_with_suffix(a: Seq<char>, b: Option<Seq<char>>)
    requires
        !a.contains('|'),
        plain_opt(b),
    ensures
        pipe_pieces(a + opt_suffix("|"@, b)) == match b {
            Some(x) => seq![a, x],
            None => seq![a],
        },
{
    lemma_one_piece(a);
    match b {
        Some(x) => {
            lemma_one_piece(x);
            lemma_pipe_pieces_concat(a, x);
            assert(a + ("|"@ + x) =~= a + "|"@ + x);
            assert(seq![a] + seq![x] =~= seq![a, x]);
        },
        None => {
            assert(a + Seq::<char>::empty() =~= a);
        },
    }
}

/// `<a>[|<b>]` read back.
pub proof fn lemma_two_fields_read_back(a: Seq<char>, b: Option<Seq<char>>)
    requires
        plain_field(a),
        plain_opt(b),
    ensures
        two_field_shape(a + opt_suffix("|"@, b), true) == Some((a, b)),
{
    lemma_pieces_with_suffix(a, b);
}

/// `<a>[ | <b>]` read back: the blanks around `|` are trimmed away.
pub proof fn lemma_spaced_two_fields_read_back(a: Seq<char>, b: Option<Seq<char>>)
    requires
        plain_field(a),
        plain_opt(b),
    ensures
        two_field_shape(a + opt_suffix(" | "@, b), true) == Some((a, b)),
{
    match b {
        Some(x) => {
            reveal_strlit(" | ");
            reveal_strlit("|");
            let l = a + seq![' '];
            let r = seq![' '] + x;
            assert(a + (" | "@ + x) =~= l + "|"@ + r);
            assert(!seq![' '].contains('|')) by {
                if seq![' '].contains('|') {
                    let j = choose|j: int| 0 <= j < 1 && seq![' '][j] == '|';
                }
            }
            lemma_concat_without(a, seq![' '], '|');
            lemma_concat_without(seq![' '], x, '|');
            lemma_one_piece(l);
            lemma_one_piece(r);
            lemma_pipe_pieces_concat(l, r);
            assert(seq![l] + seq![r] =~= seq![l, r]);
            lemma_trim_space_after(a);
            lemma_trim_space_before(x);
        },
        None => {
            lemma_pieces_with_suffix(a, b);
        },
    }
}

/// `<token_space>.<name>` splits at its first `.` into the two names.
proof fn lemma_dotted_name(ts: Seq<char>, name: Seq<char>)
    requires
        !ts.contains('.'),
    ensures
        split_once(ts + "."@ + name, '.') == Some((ts, name)),
{
    reveal_strlit(".");
    let s = ts + "."@ + name;
    assert forall|k: int| 0 <= k < ts.len() implies s[k] != '.' by {
        assert(s[k] == ts[k]);
    }
    assert(s[ts.len() as int] == '.');
    lemma_find_char(s, '.', ts.len() as int);
    assert(s.take(ts.len() as int) =~= ts);
    assert(s.skip(ts.len() as int + 1) =~= name);
}

/// `<token_space>.<name>[|<value>][|<expression>]` read back, when an
/// expression only comes with a value.
pub proof fn lemma_pcd_read_back(
    ts: Seq<char>,
    name: Seq<char>,
    value: Option<Seq<char>>,
    expression: Option<Seq<char>>,
)
    requires
        plain_field(ts),
        !ts.contains('.'),
        plain_field(name),
        plain_opt(value),
        plain_opt(expression),
        expression is Some ==> value is Some,
    ensures
        pcd_shape(ts + "."@ + name + opt_suffix("|"@, value) + opt_suffix("|"@, expression), true)
            == Some((ts, name, value, expression)),
{
    reveal_strlit(".");
    let head = ts + "."@ + name;
    assert(!"."@.contains('|')) by {
        if "."@.contains('|') {
            let j = choose|j: int| 0 <= j < 1 && "."@[j] == '|';
        }
    }
    lemma_concat_without(ts, "."@, '|');
    lemma_concat_without(ts + "."@, name, '|');
    lemma_dotted_name(ts, name);
    match expression {
        Some(x) => {
            let first = head + opt_suffix("|"@, value);
            lemma_pieces_with_suffix(head, value);
            lemma_one_piece(x);
            lemma_pipe_pieces_concat(first, x);
            assert(first + ("|"@ + x) =~= first + "|"@ + x);
            let v = value->0;
            assert(pipe_pieces(first) + seq![x] =~= seq![head, v, x]);
        },
        None => {
            lemma_pieces_with_suffix(head, value);
            assert(head + opt_suffix("|"@, value) + Seq::<char>::empty() =~= head + opt_suffix(
                "|"@,
                value,
            ));
        },
    }
}

/// `<filetype>|<path>|<target>|<family>|<tagname>` read back.
pub proof fn lemma_binary_read_back(
    f: Seq<char>,
    p: Seq<char>,
    t: Seq<char>,
    fam: Seq<char>,
    tag: Seq<char>,
)
    requires
        plain_field(f),
        plain_field(p),
        plain_field(t),
        plain_field(fam),
        plain_field(tag),
    ensures
        binary_shape(f + "|"@ + p + "|"@ + t + "|"@ + fam + "|"@ + tag, true) == Some(
            (f, p, t, fam, tag),
        ),
{
    lemma_one_piece(f);
    lemma_one_piece(p);
    lemma_one_piece(t);
    lemma_one_piece(fam);
    lemma_one_piece(tag);
    lemma_pipe_pieces_concat(f, p);
    lemma_pipe_pieces_concat(f + "|"@ + p, t);
    lemma_pipe_pieces_concat(f + "|"@ + p + "|"@ + t, fam);
    lemma_pipe_pieces_concat(f + "|"@ + p + "|"@ + t + "|"@ + fam, tag);
    assert(seq![f] + seq![p] + seq![t] + seq![fam] + seq![tag] =~= seq![f, p, t, fam, tag]);
}

/// `<token_space>.<name>|<value>|<hex>` read back.
pub proof fn lemma_patch_pcd_read_back(ts: Seq<char>, name: Seq<char>, value: Seq<char>, hex: Seq<char>)
    requires
        plain_field(ts),
        !ts.contains('.'),
        plain_field(name),
        plain_field(value),
        plain_field(hex),
    ensures
        patch_pcd_shape(ts + "."@ + name + "|"@ + value + "|"@ + hex) == Some((ts, name, value, hex)),
{
    reveal_strlit(".");
    let head = ts + "."@ + name;
    assert(!"."@.contains('|')) by {
        if "."@.contains('|') {
            let j = choose|j: int| 0 <= j < 1 && "."@[j] == '|';
        }
    }
    lemma_concat_without(ts, "."@, '|');
    lemma_concat_without(ts + "."@, name, '|');
    lemma_dotted_name(ts, name);
    lemma_one_piece(head);
    lemma_one_piece(value);
    lemma_one_piece(hex);
    lemma_pipe_pieces_concat(head, value);
    lemma_pipe_pieces_concat(head + "|"@ + value, hex);
    assert(seq![head] + seq![value] + seq![hex] =~= seq![head, value, hex]);
}

/// The pieces of `a` then `d` then `b`, split at `:` and `_`, for `d` one of them.
proof fn lemma_option_pieces_concat(a: Seq<char>, d: Seq<char>, b: Seq<char>)
    requires
        d == ":"@ || d == "_"@,
    ensures
        split(a + d + b, option_delimiters()) == split(a, option_delimiters()) + split(
            b,
            option_delimiters(),
        ),
{
    reveal_strlit(":");
    reveal_strlit("_");
    assert(d.len() == 1);
    assert(option_delimiters().contains(d[0])) by {
        if d[0] == ':' {
            assert(option_delimiters()[0] == ':');
        } else {
            assert(option_delimiters()[1] == '_');
        }
    }
    assert(a + d =~= a + seq![d[0]]);
    lemma_split_concat(a, d[0], b, option_delimiters());
}

/// A name part without `:` and `_` is one piece of a build option name.
proof fn lemma_one_option_piece(s: Seq<char>)
    requires
        plain_name_part(s),
    ensures
        split(s, option_delimiters()) == seq![s],
{
    lemma_free_of_option_delimiters(s);
    lemma_split_single(s, option_delimiters());
}

/// `[<family>:]<target>_<tagname>_<arch>_<tool_code>_<attribute>` read back.
pub proof fn lemma_build_option_name_read_back(
    e: (Option<Seq<char>>, Seq<char>, Seq<char>, Seq<char>, Seq<char>, Seq<char>, Seq<char>),
)
    requires
        e.0 matches Some(f) ==> plain_name_part(f),
        plain_name_part(e.1),
        plain_name_part(e.2),
        plain_name_part(e.3),
        plain_name_part(e.4),
        plain_name_part(e.5),
    ensures
        build_option_shape(build_option_name(e)) == Some((e.0, e.1, e.2, e.3, e.4, e.5)),
{
    let u = "_"@;
    lemma_one_option_piece(e.1);
    lemma_one_option_piece(e.2);
    lemma_one_option_piece(e.3);
    lemma_one_option_piece(e.4);
    lemma_one_option_piece(e.5);
    lemma_option_pieces_concat(e.1, u, e.2);
    lemma_option_pieces_concat(e.1 + u + e.2, u, e.3);
    lemma_option_pieces_concat(e.1 + u + e.2 + u + e.3, u, e.4);
    lemma_option_pieces_concat(e.1 + u + e.2 + u + e.3 + u + e.4, u, e.5);
    let tail = e.1 + u + e.2 + u + e.3 + u + e.4 + u + e.5;
    let pieces = seq![e.1, e.2, e.3, e.4, e.5];
    assert(split(tail, option_delimiters()) =~= pieces);
    match e.0 {
        Some(f) => {
            lemma_one_option_piece(f);
            lemma_option_pieces_concat(f, ":"@, tail);
            assert(opt_prefix(e.0, ":"@) + tail =~= f + ":"@ + tail);
            assert(build_option_name(e) =~= f + ":"@ + tail);
            assert(seq![f] + pieces =~= seq![f, e.1, e.2, e.3, e.4, e.5]);
        },
        None => {
            assert(build_option_name(e) =~= tail);
        },
    }
}

/// A `[Sources]` entry renders as a line that reads back as the same entry.
pub proof fn source_entry_reads_back(e: (Seq<char>, Option<Seq<char>>))
    requires
        plain_field(e.0),
        plain_opt(e.1),
    ensures
        SourceEntry::spec_from_key_value_pair(SourceEntry::spec_to_string(e), None) == Some(e),
{
    lemma_two_fields_read_back(e.0, e.1);
}

/// A `[Binaries]` entry renders as a line that reads back as the same entry.
pub proof fn binary_entry_reads_back(e: (Seq<char>, Seq<char>, Seq<char>, Seq<char>, Seq<char>))
    requires
        plain_field(e.0),
        plain_field(e.1),
        plain_field(e.2),
        plain_field(e.3),
        plain_field(e.4),
    ensures
        BinaryEntry::spec_from_key_value_pair(BinaryEntry::spec_to_string(e), None) == Some(e),
{
    lemma_binary_read_back(e.0, e.1, e.2, e.4, e.3);
}

/// A `[Protocols]` entry renders as a line that reads back as the same entry.
pub proof fn protocol_entry_reads_back(e: (Seq<char>, Option<Seq<char>>))
    requires
        plain_field(e.0),
        plain_opt(e.1),
    ensures
        ProtocolEntry::spec_from_key_value_pair(ProtocolEntry::spec_to_string(e), None) == Some(e),
{
    lemma_spaced_two_fields_read_back(e.0, e.1);
}

/// A `[Ppis]` entry renders as a line that reads back as the same entry.
pub proof fn ppi_entry_reads_back(e: (Seq<char>, Option<Seq<char>>))
    requires
        plain_field(e.0),
        plain_opt(e.1),
    ensures
        PpiEntry::spec_from_key_value_pair(PpiEntry::spec_to_string(e), None) == Some(e),
{
    lemma_two_fields_read_back(e.0, e.1);
}

/// A `[Guids]` entry renders as a line that reads back as the same entry.
pub proof fn guid_entry_reads_back(e: (Seq<char>, Option<Seq<char>>))
    requires
        plain_field(e.0),
        plain_opt(e.1),
    ensures
        GuidEntry::spec_from_key_value_pair(GuidEntry::spec_to_string(e), None) == Some(e),
{
    lemma_two_fields_read_back(e.0, e.1);
}

/// A `[LibraryClasses]` entry renders as a line that reads back as the same entry.
pub proof fn library_class_entry_reads_back(e: (Seq<char>, Option<Seq<char>>))
    requires
        plain_field(e.0),
        plain_opt(e.1),
    ensures
        LibraryClassEntry::spec_from_key_value_pair(LibraryClassEntry::spec_to_string(e), None)
            == Some(e),
{
    lemma_two_fields_read_back(e.0, e.1);
}

/// A `[Packages]` entry renders as a line that reads back as the same entry.
pub proof fn package_entry_reads_back(e: Seq<char>)
    requires
        trim(e) == e,
    ensures
        PackageEntry::spec_from_key_value_pair(PackageEntry::spec_to_string(e), None) == Some(e),
{
}

/// A `[Depex]` entry renders as a line that reads back as the same entry.
pub proof fn depex_entry_reads_back(e: Seq<char>)
    requires
        trim(e) == e,
    ensures
        DepexEntry::spec_from_key_value_pair(DepexEntry::spec_to_string(e), None) == Some(e),
{
}

/// A `[UserExtensions]` entry renders as a line that reads back as the same entry.
pub proof fn user_extension_entry_reads_back(e: Seq<char>)
    requires
        trim(e) == e,
    ensures
        UserExtensionEntry::spec_from_key_value_pair(UserExtensionEntry::spec_to_string(e), None)
            == Some(e),
{
}

/// A `[FeaturePcd]` entry renders as a line that reads back as the same entry,
/// when its expression only comes with a value.
pub proof fn feature_pcd_entry_reads_back(e: (Seq<char>, Seq<char>, Option<Seq<char>>, Option<Seq<char>>))
    requires
        plain_field(e.0),
        !e.0.contains('.'),
        plain_field(e.1),
        plain_opt(e.2),
        plain_opt(e.3),
        e.3 is Some ==> e.2 is Some,
    ensures
        FeaturePcdEntry::spec_from_key_value_pair(FeaturePcdEntry::spec_to_string(e), None)
            == Some(e),
{
    lemma_pcd_read_back(e.0, e.1, e.2, e.3);
}

/// A `[FixedPcd]` entry renders as a line that reads back as the same entry,
/// when its expression only comes with a value.
pub proof fn fixed_pcd_entry_reads_back(e: (Seq<char>, Seq<char>, Option<Seq<char>>, Option<Seq<char>>))
    requires
        plain_field(e.0),
        !e.0.contains('.'),
        plain_field(e.1),
        plain_opt(e.2),
        plain_opt(e.3),
        e.3 is Some ==> e.2 is Some,
    ensures
        FixedPcdEntry::spec_from_key_value_pair(FixedPcdEntry::spec_to_string(e), None) == Some(e),
{
    lemma_pcd_read_back(e.0, e.1, e.2, e.3);
}

/// A `[Pcd]` entry renders as a line that reads back as the same entry,
/// when its expression only comes with a value.
pub proof fn pcd_entry_reads_back(e: (Seq<char>, Seq<char>, Option<Seq<char>>, Option<Seq<char>>))
    requires
        plain_field(e.0),
        !e.0.contains('.'),
        plain_field(e.1),
        plain_opt(e.2),
        plain_opt(e.3),
        e.3 is Some ==> e.2 is Some,
    ensures
        PcdEntry::spec_from_key_value_pair(PcdEntry::spec_to_string(e), None) == Some(e),
{
    lemma_pcd_read_back(e.0, e.1, e.2, e.3);
}

/// A `[PcdEx]` entry renders as a line that reads back as the same entry,
/// when its expression only comes with a value.
pub proof fn pcd_ex_entry_reads_back(e: (Seq<char>, Seq<char>, Option<Seq<char>>, Option<Seq<char>>))
    requires
        plain_field(e.0),
        !e.0.contains('.'),
        plain_field(e.1),
        plain_opt(e.2),
        plain_opt(e.3),
        e.3 is Some ==> e.2 is Some,
    ensures
        PcdExEntry::spec_from_key_value_pair(PcdExEntry::spec_to_string(e), None) == Some(e),
{
    lemma_pcd_read_back(e.0, e.1, e.2, e.3);
}

/// A `[PatchPcd]` entry renders as a line that reads back as the same entry.
pub proof fn patch_pcd_entry_reads_back(e: (Seq<char>, Seq<char>, Seq<char>, Seq<char>))
    requires
        plain_field(e.0),
        !e.0.contains('.'),
        plain_field(e.1),
        plain_field(e.2),
        plain_field(e.3),
    ensures
        PatchPcdEntry::spec_from_key_value_pair(PatchPcdEntry::spec_to_string(e), None) == Some(e),
{
    lemma_patch_pcd_read_back(e.0, e.1, e.2, e.3);
}

/// A `[Defines]` entry renders as `<name> = <value>`, and the two sides read
/// back as the same entry.
pub proof fn define_entry_reads_back(e: (Seq<char>, Seq<char>))
    requires
        trim(e.0) == e.0,
        trim(e.1) == e.1,
    ensures
        DefineEntry::spec_to_string(e) == e.0 + " = "@ + e.1,
        DefineEntry::spec_from_key_value_pair(e.0, Some(e.1)) == Some(e),
{
}

/// A `[BuildOptions]` entry renders as `<name> = <value>`, and the two sides
/// read back as the same entry.
pub proof fn build_option_entry_reads_back(
    e: (Option<Seq<char>>, Seq<char>, Seq<char>, Seq<char>, Seq<char>, Seq<char>, Seq<char>),
)
    requires
        e.0 matches Some(f) ==> plain_name_part(f),
        plain_name_part(e.1),
        plain_name_part(e.2),
        plain_name_part(e.3),
        plain_name_part(e.4),
        plain_name_part(e.5),
    ensures
        BuildOptionEntry::spec_to_string(e) == build_option_name(e) + " = "@ + e.6,
        BuildOptionEntry::spec_from_key_value_pair(build_option_name(e), Some(e.6)) == Some(e),
{
    lemma_build_option_name_read_back(e);
}

} // verus!
