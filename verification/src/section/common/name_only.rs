//! Sections whose lines are a bare name (`[Packages]`, `[UserExtensions]`): one row per line, the line trimmed.

use vstd::prelude::*;
use crate::error::Error;
use crate::rows::{Row, RowView, SectionParser, SectionRows};
use crate::text::{trim, trim_str};

verus! {

/// The row that the line `key` [= `value`] gives, if the line has the expected shape.
pub open spec fn spec_row(key: Seq<char>, value: Option<Seq<char>>) -> Option<RowView> {
    Some(RowView::NameOnly(trim(key)))
}

/// Reads one line into a row.
pub fn row(key: &String, value: &Option<String>) -> (r: core::result::Result<Row, Error>)
    ensures
        SectionParser::NameOnly.row_result(key@, value.deep_view(), r),
{
    Ok(Row::NameOnly { name: trim_str(key.as_str()) })
}

/// Reads the lines of the section into rows, in order, up to the first line that
/// does not have the expected shape; that line's error comes with the rows before it.
pub fn parse(
    section: &Vec<(String, Option<String>)>,
    section_name: &String,
    scope1: &Option<String>,
    scope2: &Option<String>,
) -> (r: SectionRows)
    ensures
        r.describes(
            SectionParser::NameOnly,
            section.deep_view(),
            section_name@,
            scope1.deep_view(),
            scope2.deep_view(),
        ),
{
    SectionParser::NameOnly.parse_rows(section, section_name, scope1, scope2)
}

/// Every line is read into a row as the whole line trimmed.
pub proof fn lemma_row_whole_line(key: Seq<char>, value: Option<Seq<char>>)
    ensures
        spec_row(key, value) == Some(RowView::NameOnly(trim(key))),
{
}

} // verus!
