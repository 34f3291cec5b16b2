//! Sections of PCDs (`[Pcd]`, `[PcdEx]`, `[FixedPcd]`, `[FeaturePcd]`): `<token_space>.<name>[|<value>][|<expression>]`.

use vstd::prelude::*;
use crate::error::Error;
use crate::rows::{Row, RowView, SectionParser, SectionRows};
use crate::shapes::{parse_pcd, pcd_shape};

use crate::shapes::pipe_pieces;
use crate::text::{lemma_split_nonempty, split_once};

verus! {

/// The row that the line `key` [= `value`] gives, if the line has the expected shape.
pub open spec fn spec_row(key: Seq<char>, value: Option<Seq<char>>) -> Option<RowView> {
    match pcd_shape(key, false) {
        Some((token_space, name, value, expression)) => Some(
            RowView::Pcd(token_space, name, value, expression),
        ),
        None => None,
    }
}

/// Reads one line into a row.
pub fn row(key: &String, value: &Option<String>) -> (r: core::result::Result<Row, Error>)
    ensures
        SectionParser::Pcds.row_result(key@, value.deep_view(), r),
{
    match parse_pcd(key.as_str(), false) {
        Some((token_space, name, value, expression)) => Ok(
            Row::Pcd { token_space, name, value, expression },
        ),
        None => Err(
            Error::InvalidFormat(
                String::from_str("<token_space>.<name>[|<value>][|<expression>]"),
                key.clone(),
            ),
        ),
    }
}

/// Reads the lines of the section into rows, in order, up to the first line that
/// does not have the expected shape; that line's error comes with the rows before it.
pub fn parse(
    section: &Vec<(String, Option<String>)>,
    section_name: &String,
    scope1: &Option<String>,
    scope2: &Option<String>,
) -> (r: SectionRows)
    ensures
        r.describes(
            SectionParser::Pcds,
            section.deep_view(),
            section_name@,
            scope1.deep_view(),
            scope2.deep_view(),
        ),
{
    SectionParser::Pcds.parse_rows(section, section_name, scope1, scope2)
}

/// A line `<token_space>.<name>[|<value>][|<expression>]` is read into a row as
/// its `|` pieces in order and as they stand: the first split at its first `.`
/// into the token space and the name, then the value, then the expression; a
/// line of more than three pieces, or whose first piece has no `.`, is refused.
pub proof fn lemma_row_pieces(key: Seq<char>, value: Option<Seq<char>>)
    ensures
        ({
            let p = pipe_pieces(key);
            let d = split_once(p[0], '.')->0;
            &&& p.len() > 3 ==> spec_row(key, value) is None
            &&& p.len() <= 3 && split_once(p[0], '.') is None ==> spec_row(key, value) is None
            &&& p.len() <= 3 && split_once(p[0], '.') is Some ==> spec_row(key, value) == Some(
                RowView::Pcd(
                    d.0,
                    d.1,
                    if p.len() >= 2 {
                        Some(p[1])
                    } else {
                        None
                    },
                    if p.len() == 3 {
                        Some(p[2])
                    } else {
                        None
                    },
                ),
            )
        }),
{
    lemma_split_nonempty(key, seq!['|']);
}

} // verus!
