//! The `[Binaries]` section: `<filetype>|<path>[|<target>[|<family>[|<tagname>]]]`, the absent parts `*`.

use vstd::prelude::*;
use crate::error::Error;
use crate::rows::{Row, RowView, SectionParser, SectionRows};
use crate::shapes::{binary_shape, parse_binary, pipe_pieces};

verus! {

/// The row that the line `key` [= `value`] gives, if the line has the expected shape.
pub open spec fn spec_row(key: Seq<char>, value: Option<Seq<char>>) -> Option<RowView> {
    match binary_shape(key, false) {
        Some((filetype, binpath, target, family, tagname)) => Some(
            RowView::Binary(filetype, binpath, target, family, tagname),
        ),
        None => None,
    }
}

/// Reads one line into a row.
pub fn row(key: &String, value: &Option<String>) -> (r: core::result::Result<Row, Error>)
    ensures
        SectionParser::Binaries.row_result(key@, value.deep_view(), r),
{
    match parse_binary(key.as_str(), false) {
        Some((filetype, binpath, target, family, tagname)) => Ok(
            Row::Binary { filetype, binpath, target, family, tagname },
        ),
        None => Err(
            Error::InvalidFormat(
                String::from_str("<filetype>|<path>[|<target>[|<family>[|<tagname>]]]"),
                key.clone(),
            ),
        ),
    }
}

/// Reads the lines of the section into rows, in order, up to the first line that
/// does not have the expected shape; that line's error comes with the rows before it.
pub fn parse(
    section: &Vec<(String, Option<String>)>,
    section_name: &String,
    scope1: &Option<String>,
    scope2: &Option<String>,
) -> (r: SectionRows)
    ensures
        r.describes(
            SectionParser::Binaries,
            section.deep_view(),
            section_name@,
            scope1.deep_view(),
            scope2.deep_view(),
        ),
{
    SectionParser::Binaries.parse_rows(section, section_name, scope1, scope2)
}

/// A line is read into a row piece by piece between its `|`s, as the pieces
/// stand, in order: filetype, binary path, target, family, tag name; the
/// target, family and tag name that are left out are `*`. A line of fewer
/// than two or more than five pieces is refused.
pub proof fn lemma_row_pieces(key: Seq<char>, value: Option<Seq<char>>)
    ensures
        ({
            let p = pipe_pieces(key);
            let star = "*"@;
            &&& p.len() == 2 ==> spec_row(key, value) == Some(
                RowView::Binary(p[0], p[1], star, star, star),
            )
            &&& p.len() == 3 ==> spec_row(key, value) == Some(
                RowView::Binary(p[0], p[1], p[2], star, star),
            )
            &&& p.len() == 4 ==> spec_row(key, value) == Some(
                RowView::Binary(p[0], p[1], p[2], p[3], star),
            )
            &&& p.len() == 5 ==> spec_row(key, value) == Some(
                RowView::Binary(p[0], p[1], p[2], p[3], p[4]),
            )
            &&& (p.len() < 2 || p.len() > 5) ==> spec_row(key, value) is None
        }),
{
}

} // verus!
