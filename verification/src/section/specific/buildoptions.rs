//! The `[BuildOptions]` section: `[<family>:]<target>_<tagname>_<arch>_<tool_code>_<attribute> = <value>`.

use vstd::prelude::*;
use crate::error::Error;
use crate::rows::{Row, RowView, SectionParser, SectionRows};
use crate::shapes::{build_option_shape, parse_build_option};
use crate::text::pretty_debug_string;

use crate::shapes::option_delimiters;
use crate::text::{split, trim};

verus! {

/// The row that the line `key` [= `value`] gives, if the line has the expected shape.
pub open spec fn spec_row(key: Seq<char>, value: Option<Seq<char>>) -> Option<RowView> {
    match build_option_shape(key) {
        Some((family, target, tagname, arch, tool_code, attribute)) => Some(
            RowView::BuildOption(
                family,
                target,
                tagname,
                arch,
                tool_code,
                attribute,
                match value {
                    Some(v) => v,
                    None => Seq::<char>::empty(),
                },
            ),
        ),
        None => None,
    }
}

/// Reads one line into a row.
pub fn row(key: &String, value: &Option<String>) -> (r: core::result::Result<Row, Error>)
    ensures
        SectionParser::BuildOptions.row_result(key@, value.deep_view(), r),
{
    match parse_build_option(key.as_str()) {
        Some((family, target, tagname, arch, tool_code, attribute)) => {
            let value = match value {
                Some(v) => v.clone(),
                None => String::new(),
            };
            Ok(Row::BuildOption { family, target, tagname, arch, tool_code, attribute, value })
        },
        None => {
            let detected = key.clone().concat(" = ").concat(pretty_debug_string(value).as_str());
            Err(
                Error::InvalidFormat(
                    String::from_str(
                        "[<family>:]<target>_<tagname>_<arch>_<tool_code>_<attribute> = <value>",
                    ),
                    detected,
                ),
            )
        },
    }
}

/// Reads the lines of the section into rows, in order, up to the first line that
/// does not have the expected shape; that line's error comes with the rows before it.
pub fn parse(
    section: &Vec<(String, Option<String>)>,
    section_name: &String,
    scope1: &Option<String>,
    scope2: &Option<String>,
) -> (r: SectionRows)
    ensures
        r.describes(
            SectionParser::BuildOptions,
            section.deep_view(),
            section_name@,
            scope1.deep_view(),
            scope2.deep_view(),
        ),
{
    SectionParser::BuildOptions.parse_rows(section, section_name, scope1, scope2)
}

/// A line is read into a row from its name split at every `:` and `_`, the
/// parts trimmed and in order: five parts are target, tag name, arch, tool
/// code and attribute; six have the family first. The value is kept as it
/// stands, empty when there is none. Any other name is refused.
pub proof fn lemma_row_pieces(key: Seq<char>, value: Option<Seq<char>>)
    ensures
        ({
            let q = split(key, option_delimiters());
            let v = match value {
                Some(x) => x,
                None => Seq::<char>::empty(),
            };
            &&& q.len() == 5 ==> spec_row(key, value) == Some(
                RowView::BuildOption(None, trim(q[0]), trim(q[1]), trim(q[2]), trim(q[3]), trim(q[4]), v),
            )
            &&& q.len() == 6 ==> spec_row(key, value) == Some(
                RowView::BuildOption(
                    Some(trim(q[0])),
                    trim(q[1]),
                    trim(q[2]),
                    trim(q[3]),
                    trim(q[4]),
                    trim(q[5]),
                    v,
                ),
            )
            &&& q.len() != 5 && q.len() != 6 ==> spec_row(key, value) is None
        }),
{
}

} // verus!
