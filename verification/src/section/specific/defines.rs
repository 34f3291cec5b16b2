//! The `[Defines]` section: `[DEFINE] <key> = <value>`. Some INF files scope their defines although the specification does not allow it, so scopes are kept.

use vstd::prelude::*;
use crate::error::Error;
use crate::rows::{Row, RowView, SectionParser, SectionRows};
use crate::text::{pretty_debug_string, to_uppercase, trim, trim_start_matches, trim_start_matches_str, trim_str, uppercase};

verus! {

/// The row that the line `key` [= `value`] gives, if the line has the expected shape.
pub open spec fn spec_row(key: Seq<char>, value: Option<Seq<char>>) -> Option<RowView> {
    match value {
        Some(v) => Some(
            RowView::Define(
                trim(trim_start_matches(uppercase(trim(key)), "DEFINE"@)),
                trim(v),
            ),
        ),
        None => None,
    }
}

/// Reads one line into a row.
pub fn row(key: &String, value: &Option<String>) -> (r: core::result::Result<Row, Error>)
    ensures
        SectionParser::Defines.row_result(key@, value.deep_view(), r),
{
    match value {
        Some(v) => {
            let upper = to_uppercase(trim_str(key.as_str()).as_str());
            let nkey = trim_start_matches_str(upper.as_str(), "DEFINE");
            Ok(Row::Define { key: trim_str(nkey.as_str()), value: trim_str(v.as_str()) })
        },
        None => {
            let detected = key.clone().concat(" = ").concat(pretty_debug_string(value).as_str());
            Err(Error::InvalidFormat(String::from_str("[DEFINE] <key> = <value>"), detected))
        },
    }
}

/// Reads the lines of the section into rows, in order, up to the first line that
/// does not have the expected shape; that line's error comes with the rows before it.
pub fn parse(
    section: &Vec<(String, Option<String>)>,
    section_name: &String,
    scope1: &Option<String>,
    scope2: &Option<String>,
) -> (r: SectionRows)
    ensures
        r.describes(
            SectionParser::Defines,
            section.deep_view(),
            section_name@,
            scope1.deep_view(),
            scope2.deep_view(),
        ),
{
    SectionParser::Defines.parse_rows(section, section_name, scope1, scope2)
}

/// A line `[DEFINE] <key> = <value>` is read into a row as its key, trimmed,
/// in upper case and without its leading `DEFINE`s, then trimmed again, and
/// its value trimmed; a line without a value is refused.
pub proof fn lemma_row_pieces(key: Seq<char>, value: Option<Seq<char>>)
    ensures
        value matches Some(v) ==> spec_row(key, value) == Some(
            RowView::Define(trim(trim_start_matches(uppercase(trim(key)), "DEFINE"@)), trim(v)),
        ),
        value is None ==> spec_row(key, value) is None,
{
}

} // verus!
