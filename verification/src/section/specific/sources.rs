//! The `[Sources]` section: `<path>[|<family>]`.

use vstd::prelude::*;
use crate::error::Error;
use crate::rows::{Row, RowView, SectionParser, SectionRows};
use crate::shapes::{parse_two_fields, two_field_shape};

use crate::shapes::pipe_pieces;
use crate::text::lemma_split_nonempty;

verus! {

/// The row that the line `key` [= `value`] gives, if the line has the expected shape.
pub open spec fn spec_row(key: Seq<char>, value: Option<Seq<char>>) -> Option<RowView> {
    match two_field_shape(key, false) {
        Some((src_path, family)) => Some(RowView::Source(src_path, family)),
        None => None,
    }
}

/// Reads one line into a row.
pub fn row(key: &String, value: &Option<String>) -> (r: core::result::Result<Row, Error>)
    ensures
        SectionParser::Sources.row_result(key@, value.deep_view(), r),
{
    match parse_two_fields(key.as_str(), false) {
        Some((src_path, family)) => Ok(Row::Source { src_path, family }),
        None => Err(Error::InvalidFormat(String::from_str("<path>[|<family>]"), key.clone())),
    }
}

/// Reads the lines of the section into rows, in order, up to the first line that
/// does not have the expected shape; that line's error comes with the rows before it.
pub fn parse(
    section: &Vec<(String, Option<String>)>,
    section_name: &String,
    scope1: &Option<String>,
    scope2: &Option<String>,
) -> (r: SectionRows)
    ensures
        r.describes(
            SectionParser::Sources,
            section.deep_view(),
            section_name@,
            scope1.deep_view(),
            scope2.deep_view(),
        ),
{
    SectionParser::Sources.parse_rows(section, section_name, scope1, scope2)
}

/// A line `<path>[|<family>]` is read into a row as its one or two `|` pieces, in
/// order and as they stand; a line of more than two pieces is refused.
pub proof fn lemma_row_pieces(key: Seq<char>, value: Option<Seq<char>>)
    ensures
        ({
            let p = pipe_pieces(key);
            &&& p.len() == 1 ==> spec_row(key, value) == Some(RowView::Source(p[0], None))
            &&& p.len() == 2 ==> spec_row(key, value) == Some(RowView::Source(p[0], Some(p[1])))
            &&& p.len() > 2 ==> spec_row(key, value) is None
        }),
{
    lemma_split_nonempty(key, seq!['|']);
}

} // verus!
