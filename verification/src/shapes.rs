//! The shapes of the lines of the sections: a line is split at `|` (or at
//! `:` and `_`), the first piece sometimes again at its first `.`, and the
//! pieces are taken trimmed or as they are.

use vstd::prelude::*;
use crate::text::{chars_of, find_in, ranges_view, split, split_once, split_ranges, string_of, trim, trimmed_string};

verus! {

/// `s` trimmed when `t` holds, else `s` itself.
pub open spec fn opt_trim(s: Seq<char>, t: bool) -> Seq<char> {
    if t {
        trim(s)
    } else {
        s
    }
}

/// The one delimiter `|`.
pub open spec fn pipe() -> Seq<char> {
    seq!['|']
}

/// The pieces of `key` between `|`s.
pub open spec fn pipe_pieces(key: Seq<char>) -> Seq<Seq<char>> {
    split(key, pipe())
}

/// `<a>[|<b>]`: one or two pieces.
pub open spec fn two_field_shape(key: Seq<char>, t: bool) -> Option<(Seq<char>, Option<Seq<char>>)> {
    let p = pipe_pieces(key);
    if p.len() == 1 {
        Some((opt_trim(p[0], t), None))
    } else if p.len() == 2 {
        Some((opt_trim(p[0], t), Some(opt_trim(p[1], t))))
    } else {
        None
    }
}

/// `<token_space>.<name>[|<value>][|<expression>]`.
pub open spec fn pcd_shape(key: Seq<char>, t: bool) -> Option<
    (Seq<char>, Seq<char>, Option<Seq<char>>, Option<Seq<char>>),
> {
    let p = pipe_pieces(key);
    if 1 <= p.len() <= 3 {
        match split_once(p[0], '.') {
            Some((a, b)) => Some(
                (
                    opt_trim(a, t),
                    opt_trim(b, t),
                    if p.len() >= 2 {
                        Some(opt_trim(p[1], t))
                    } else {
                        None
                    },
                    if p.len() == 3 {
                        Some(opt_trim(p[2], t))
                    } else {
                        None
                    },
                ),
            ),
            None => None,
        }
    } else {
        None
    }
}

/// `<filetype>|<path>[|<target>[|<family>[|<tagname>]]]`, the absent ones `*`;
/// in that order: filetype, path, target, family, tagname.
pub open spec fn binary_shape(key: Seq<char>, t: bool) -> Option<
    (Seq<char>, Seq<char>, Seq<char>, Seq<char>, Seq<char>),
> {
    let p = pipe_pieces(key);
    if 2 <= p.len() <= 5 {
        Some(
            (
                opt_trim(p[0], t),
                opt_trim(p[1], t),
                if p.len() >= 3 {
                    opt_trim(p[2], t)
                } else {
                    "*"@
                },
                if p.len() >= 4 {
                    opt_trim(p[3], t)
                } else {
                    "*"@
                },
                if p.len() == 5 {
                    opt_trim(p[4], t)
                } else {
                    "*"@
                },
            ),
        )
    } else {
        None
    }
}

/// `<token_space>.<name>|<value>|<hex>`, all trimmed.
pub open spec fn patch_pcd_shape(key: Seq<char>) -> Option<
    (Seq<char>, Seq<char>, Seq<char>, Seq<char>),
> {
    let p = pipe_pieces(key);
    if p.len() == 3 {
        match split_once(p[0], '.') {
            Some((a, b)) => Some((trim(a), trim(b), trim(p[1]), trim(p[2]))),
            None => None,
        }
    } else {
        None
    }
}

/// The delimiters of a build option name: `:` and `_`.
pub open spec fn option_delimiters() -> Seq<char> {
    seq![':', '_']
}

/// `[<family>:]<target>_<tagname>_<arch>_<tool_code>_<attribute>`, split at
/// every `:` and `_`, all trimmed: five pieces have no family, six have one.
pub open spec fn build_option_shape(key: Seq<char>) -> Option<
    (Option<Seq<char>>, Seq<char>, Seq<char>, Seq<char>, Seq<char>, Seq<char>),
> {
    let p = split(key, option_delimiters());
    if p.len() == 5 {
        Some((None, trim(p[0]), trim(p[1]), trim(p[2]), trim(p[3]), trim(p[4])))
    } else if p.len() == 6 {
        Some((Some(trim(p[0])), trim(p[1]), trim(p[2]), trim(p[3]), trim(p[4]), trim(p[5])))
    } else {
        None
    }
}

/// The characters of `key` and the ranges of its pieces between the characters of `ds`.
pub fn key_pieces(key: &str, ds: &[char]) -> (r: (Vec<char>, Vec<(usize, usize)>))
    ensures
        r.0@ == key@,
        ranges_view(r.0@, r.1@) == split(key@, ds@),
        forall|k: int| 0 <= k < r.1.len() ==> (#[trigger] r.1@[k]).0 <= r.1@[k].1 <= r.0.len(),
{
    let v = chars_of(key);
    let r = split_ranges(&v, 0, v.len(), ds);
    assert(v@.subrange(0, v@.len() as int) =~= v@);
    (v, r)
}

/// `v[lo..hi]`, trimmed when `t` holds, as a new string.
pub fn piece_string(v: &Vec<char>, lo: usize, hi: usize, t: bool) -> (s: String)
    requires
        lo <= hi <= v.len(),
    ensures
        s@ == opt_trim(v@.subrange(lo as int, hi as int), t),
{
    if t {
        trimmed_string(v, lo, hi)
    } else {
        string_of(v, lo, hi)
    }
}

/// Piece `k` of the ranges `r` into `v`, trimmed when `t` holds.
pub fn nth_piece(v: &Vec<char>, r: &Vec<(usize, usize)>, k: usize, t: bool) -> (s: String)
    requires
        k < r.len(),
        forall|j: int| 0 <= j < r.len() ==> (#[trigger] r@[j]).0 <= r@[j].1 <= v.len(),
    ensures
        s@ == opt_trim(ranges_view(v@, r@)[k as int], t),
{
    let (lo, hi) = r[k];
    assert(r@[k as int].0 <= r@[k as int].1 <= v.len());
    piece_string(v, lo, hi, t)
}

/// The two halves of `v[lo..hi]` around its first `.`, trimmed when `t` holds.
pub fn split_once_dot(v: &Vec<char>, lo: usize, hi: usize, t: bool) -> (r: Option<(String, String)>)
    requires
        lo <= hi <= v.len(),
    ensures
        match split_once(v@.subrange(lo as int, hi as int), '.') {
            Some((a, b)) => r matches Some(x) && x.0@ == opt_trim(a, t) && x.1@ == opt_trim(b, t),
            None => r is None,
        },
{
    match find_in(v, lo, hi, '.') {
        Some(i) => {
            let a = piece_string(v, lo, i, t);
            let b = piece_string(v, i + 1, hi, t);
            assert(v@.subrange(lo as int, hi as int).take(i - lo) =~= v@.subrange(lo as int, i as int));
            assert(v@.subrange(lo as int, hi as int).skip(i - lo + 1) =~= v@.subrange(
                i + 1,
                hi as int,
            ));
            Some((a, b))
        },
        None => None,
    }
}

/// Reads `<a>[|<b>]`.
pub fn parse_two_fields(key: &str, t: bool) -> (r: Option<(String, Option<String>)>)
    ensures
        r.deep_view() == two_field_shape(key@, t),
{
    let (v, p) = key_pieces(key, &['|']);
    assert(pipe() =~= ['|']@);
    if p.len() == 1 {
        Some((nth_piece(&v, &p, 0, t), None))
    } else if p.len() == 2 {
        let a = nth_piece(&v, &p, 0, t);
        let b = nth_piece(&v, &p, 1, t);
        Some((a, Some(b)))
    } else {
        None
    }
}


/// Reads `<token_space>.<name>[|<value>][|<expression>]`.
pub fn parse_pcd(key: &str, t: bool) -> (r: Option<(String, String, Option<String>, Option<String>)>)
    ensures
        r.deep_view() == pcd_shape(key@, t),
{
    let (v, p) = key_pieces(key, &['|']);
    assert(pipe() =~= ['|']@);
    if p.len() < 1 || p.len() > 3 {
        return None;
    }
    let (lo, hi) = p[0];
    assert(p@[0].0 <= p@[0].1 <= v.len());
    match split_once_dot(&v, lo, hi, t) {
        Some((a, b)) => {
            let value = if p.len() >= 2 {
                Some(nth_piece(&v, &p, 1, t))
            } else {
                None
            };
            let expression = if p.len() == 3 {
                Some(nth_piece(&v, &p, 2, t))
            } else {
                None
            };
            Some((a, b, value, expression))
        },
        None => None,
    }
}

/// Reads `<filetype>|<path>[|<target>[|<family>[|<tagname>]]]`.
pub fn parse_binary(key: &str, t: bool) -> (r: Option<(String, String, String, String, String)>)
    ensures
        r.deep_view() == binary_shape(key@, t),
{
    let (v, p) = key_pieces(key, &['|']);
    assert(pipe() =~= ['|']@);
    if p.len() < 2 || p.len() > 5 {
        return None;
    }
    let filetype = nth_piece(&v, &p, 0, t);
    let path = nth_piece(&v, &p, 1, t);
    let target = if p.len() >= 3 {
        nth_piece(&v, &p, 2, t)
    } else {
        String::from_str("*")
    };
    let family = if p.len() >= 4 {
        nth_piece(&v, &p, 3, t)
    } else {
        String::from_str("*")
    };
    let tagname = if p.len() == 5 {
        nth_piece(&v, &p, 4, t)
    } else {
        String::from_str("*")
    };
    Some((filetype, path, target, family, tagname))
}

/// Reads `<token_space>.<name>|<value>|<hex>`.
pub fn parse_patch_pcd(key: &str) -> (r: Option<(String, String, String, String)>)
    ensures
        r.deep_view() == patch_pcd_shape(key@),
{
    let (v, p) = key_pieces(key, &['|']);
    assert(pipe() =~= ['|']@);
    if p.len() != 3 {
        return None;
    }
    let (lo, hi) = p[0];
    assert(p@[0].0 <= p@[0].1 <= v.len());
    match split_once_dot(&v, lo, hi, true) {
        Some((a, b)) => {
            let value = nth_piece(&v, &p, 1, true);
            let hex = nth_piece(&v, &p, 2, true);
            Some((a, b, value, hex))
        },
        None => None,
    }
}

/// Reads `[<family>:]<target>_<tagname>_<arch>_<tool_code>_<attribute>`.
pub fn parse_build_option(key: &str) -> (r: Option<
    (Option<String>, String, String, String, String, String),
>)
    ensures
        r.deep_view() == build_option_shape(key@),
{
    let (v, p) = key_pieces(key, &[':', '_']);
    assert(option_delimiters() =~= [':', '_']@);
    if p.len() == 5 {
        let target = nth_piece(&v, &p, 0, true);
        let tagname = nth_piece(&v, &p, 1, true);
        let arch = nth_piece(&v, &p, 2, true);
        let tool_code = nth_piece(&v, &p, 3, true);
        let attribute = nth_piece(&v, &p, 4, true);
        Some((None, target, tagname, arch, tool_code, attribute))
    } else if p.len() == 6 {
        let family = nth_piece(&v, &p, 0, true);
        let target = nth_piece(&v, &p, 1, true);
        let tagname = nth_piece(&v, &p, 2, true);
        let arch = nth_piece(&v, &p, 3, true);
        let tool_code = nth_piece(&v, &p, 4, true);
        let attribute = nth_piece(&v, &p, 5, true);
        Some((Some(family), target, tagname, arch, tool_code, attribute))
    } else {
        None
    }
}

} // verus!
