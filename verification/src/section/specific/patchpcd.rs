//! The `[PatchPcd]` section: `<token_space>.<name>|<value>|<hex>`.

use vstd::prelude::*;
use crate::error::Error;
use crate::rows::{Row, RowView, SectionParser, SectionRows};
use crate::shapes::{parse_patch_pcd, patch_pcd_shape};

use crate::shapes::pipe_pieces;
use crate::text::{split_once, trim};

verus! {

/// The row that the line `key` [= `value`] gives, if the line has the expected shape.
pub open spec fn spec_row(key: Seq<char>, value: Option<Seq<char>>) -> Option<RowView> {
    match patch_pcd_shape(key) {
        Some((token_space, name, value, hex)) => Some(RowView::PatchPcd(token_space, name, value, hex)),
        None => None,
    }
}

/// Reads one line into a row.
pub fn row(key: &String, value: &Option<String>) -> (r: core::result::Result<Row, Error>)
    ensures
        SectionParser::PatchPcd.row_result(key@, value.deep_view(), r),
{
    match parse_patch_pcd(key.as_str()) {
        Some((token_space, name, value, hex)) => Ok(Row::PatchPcd { token_space, name, value, hex }),
        None => Err(
            Error::InvalidFormat(
                String::from_str("PatchPcdEntry must be in format <token_space>.<name>|<value>|<hex>"),
                key.clone(),
            ),
        ),
    }
}

/// Reads the lines of the section into rows, in order, up to the first line that
/// does not have the expected shape; that line's error comes with the rows before it.
pub fn parse(
    section: &Vec<(String, Option<String>)>,
    section_name: &String,
    scope1: &Option<String>,
    scope2: &Option<String>,
) -> (r: SectionRows)
    ensures
        r.describes(
            SectionParser::PatchPcd,
            section.deep_view(),
            section_name@,
            scope1.deep_view(),
            scope2.deep_view(),
        ),
{
    SectionParser::PatchPcd.parse_rows(section, section_name, scope1, scope2)
}

/// A line `<token_space>.<name>|<value>|<hex>` is read into a row as its three
/// `|` pieces in order, the first split at its first `.`, each trimmed; any
/// other line is refused.
pub proof fn lemma_row_pieces(key: Seq<char>, value: Option<Seq<char>>)
    ensures
        ({
            let p = pipe_pieces(key);
            let d = split_once(p[0], '.')->0;
            &&& p.len() != 3 ==> spec_row(key, value) is None
            &&& p.len() == 3 && split_once(p[0], '.') is None ==> spec_row(key, value) is None
            &&& p.len() == 3 && split_once(p[0], '.') is Some ==> spec_row(key, value) == Some(
                RowView::PatchPcd(trim(d.0), trim(d.1), trim(p[1]), trim(p[2])),
            )
        }),
{
}

} // verus!
