//! The INI reader that splits a whole file into its sections.

use vstd::prelude::*;

verus! {

/// What `configparser` reads from a text, with `#` as the only comment
/// symbol (at the start of a line or after its content), `=` as the only
/// delimiter and case kept: the sections in order, each with its lines
/// `(key, value)` in order, or nothing when the text is refused.
pub uninterp spec fn ini_sections(text: Seq<char>) -> Option<
    Seq<(Seq<char>, Seq<(Seq<char>, Option<Seq<char>>)>)>,
>;

/// `configparser::ini::Ini::read` with the settings above. Its result is a
/// function of the text alone (the `indexmap` feature keeps sections and keys
/// in the order of the text), named `ini_sections`; the maps are handed out
/// as lists in that order, and the error text of a refusal is dropped.
#[verifier::external_body]
pub(crate) fn read_ini(text: String) -> (r: Option<Vec<(String, Vec<(String, Option<String>)>)>>)
    ensures
        r.deep_view() == ini_sections(text@),
{
    let mut defaults = configparser::ini::Ini::new_cs().defaults();
    defaults.comment_symbols = vec!['#'];
    defaults.delimiters = vec!['='];
    let mut parser = configparser::ini::Ini::new_from_defaults(defaults);
    let sections = parser.read(text).ok()?;
    Some(sections.into_iter().map(|(name, section)| (name, section.into_iter().collect())).collect())
}

} // verus!
