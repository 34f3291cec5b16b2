//! The rows that the lines of a section give, and the readers of the
//! sections that produce them.

use vstd::prelude::*;
use crate::error::Error;
use crate::text::pretty_debug;
use crate::section::common::name_only;
use crate::section::common::name_expression;
use crate::section::common::pcds;
use crate::section::specific::depex;
use crate::section::specific::sources;
use crate::section::specific::libraryclasses;
use crate::section::specific::defines;
use crate::section::specific::patchpcd;
use crate::section::specific::binaries;
use crate::section::specific::buildoptions;

verus! {

/// One row of a table: what one line of a section holds.
#[allow(inconsistent_fields)]
#[derive(Debug)]
pub enum Row {
    NameOnly { name: String },
    NameExpression { name: String, expression: Option<String> },
    Pcd { token_space: String, name: String, value: Option<String>, expression: Option<String> },
    Depex { value: String },
    Source { src_path: String, family: Option<String> },
    LibraryClass { name: String, expression: Option<String> },
    Define { key: String, value: String },
    PatchPcd { token_space: String, name: String, value: String, hex: String },
    Binary { filetype: String, binpath: String, target: String, family: String, tagname: String },
    BuildOption { family: Option<String>, target: String, tagname: String, arch: String, tool_code: String, attribute: String, value: String },
}

/// The text content of a row.
pub enum RowView {
    NameOnly(Seq<char>),
    NameExpression(Seq<char>, Option<Seq<char>>),
    Pcd(Seq<char>, Seq<char>, Option<Seq<char>>, Option<Seq<char>>),
    Depex(Seq<char>),
    Source(Seq<char>, Option<Seq<char>>),
    LibraryClass(Seq<char>, Option<Seq<char>>),
    Define(Seq<char>, Seq<char>),
    PatchPcd(Seq<char>, Seq<char>, Seq<char>, Seq<char>),
    Binary(Seq<char>, Seq<char>, Seq<char>, Seq<char>, Seq<char>),
    BuildOption(Option<Seq<char>>, Seq<char>, Seq<char>, Seq<char>, Seq<char>, Seq<char>, Seq<char>),
}

impl DeepView for Row {
    type V = RowView;

    open spec fn deep_view(&self) -> RowView {
        match self {
            Row::NameOnly { name } => RowView::NameOnly(name@),
            Row::NameExpression { name, expression } => RowView::NameExpression(name@, expression.deep_view()),
            Row::Pcd { token_space, name, value, expression } => RowView::Pcd(token_space@, name@, value.deep_view(), expression.deep_view()),
            Row::Depex { value } => RowView::Depex(value@),
            Row::Source { src_path, family } => RowView::Source(src_path@, family.deep_view()),
            Row::LibraryClass { name, expression } => RowView::LibraryClass(name@, expression.deep_view()),
            Row::Define { key, value } => RowView::Define(key@, value@),
            Row::PatchPcd { token_space, name, value, hex } => RowView::PatchPcd(token_space@, name@, value@, hex@),
            Row::Binary { filetype, binpath, target, family, tagname } => RowView::Binary(filetype@, binpath@, target@, family@, tagname@),
            Row::BuildOption { family, target, tagname, arch, tool_code, attribute, value } => RowView::BuildOption(family.deep_view(), target@, tagname@, arch@, tool_code@, attribute@, value@),
        }
    }
}

/// Which reader handles the lines of a section.
#[derive(Debug, Clone, Copy, PartialEq, Eq, Structural)]
pub enum SectionParser {
    NameOnly,
    NameExpression,
    Pcds,
    Depex,
    Sources,
    LibraryClasses,
    Defines,
    PatchPcd,
    Binaries,
    BuildOptions,
}

/// The rows of one section, ready to be stored in the table `table`.
#[derive(Debug)]
pub struct SectionRows {
    /// The table that holds the rows.
    pub table: String,
    /// The first scope of the section header, lower case.
    pub scope1: Option<String>,
    /// The second scope of the section header, lower case.
    pub scope2: Option<String>,
    /// The rows, one per line, in the order of the lines.
    pub rows: Vec<Row>,
    /// The error of the first line that could not be read, if any.
    pub error: Option<Error>,
}

impl SectionParser {
    /// The row that a line gives, if the line has the expected shape.
    pub open spec fn spec_row(self, key: Seq<char>, value: Option<Seq<char>>) -> Option<RowView> {
        match self {
            SectionParser::NameOnly => name_only::spec_row(key, value),
            SectionParser::NameExpression => name_expression::spec_row(key, value),
            SectionParser::Pcds => pcds::spec_row(key, value),
            SectionParser::Depex => depex::spec_row(key, value),
            SectionParser::Sources => sources::spec_row(key, value),
            SectionParser::LibraryClasses => libraryclasses::spec_row(key, value),
            SectionParser::Defines => defines::spec_row(key, value),
            SectionParser::PatchPcd => patchpcd::spec_row(key, value),
            SectionParser::Binaries => binaries::spec_row(key, value),
            SectionParser::BuildOptions => buildoptions::spec_row(key, value),
        }
    }

    /// The shape that lines must have.
    pub open spec fn spec_hint(self) -> Seq<char> {
        match self {
            SectionParser::NameOnly => ""@,
            SectionParser::NameExpression => "<name>[|<expression>]"@,
            SectionParser::Pcds => "<token_space>.<name>[|<value>][|<expression>]"@,
            SectionParser::Depex => ""@,
            SectionParser::Sources => "<path>[|<family>]"@,
            SectionParser::LibraryClasses => "<name>[|<expression>]"@,
            SectionParser::Defines => "[DEFINE] <key> = <value>"@,
            SectionParser::PatchPcd => "PatchPcdEntry must be in format <token_space>.<name>|<value>|<hex>"@,
            SectionParser::Binaries => "<filetype>|<path>[|<target>[|<family>[|<tagname>]]]"@,
            SectionParser::BuildOptions => "[<family>:]<target>_<tagname>_<arch>_<tool_code>_<attribute> = <value>"@,
        }
    }

    /// The text by which an error names a line that could not be read.
    pub open spec fn spec_detected(self, key: Seq<char>, value: Option<Seq<char>>) -> Seq<char> {
        match self {
            SectionParser::Defines | SectionParser::BuildOptions => key + " = "@ + pretty_debug(
                value,
            ),
            _ => key,
        }
    }

    /// The table that holds the rows of the section `section_name`.
    pub open spec fn spec_table(self, section_name: Seq<char>) -> Seq<char> {
        match self {
            SectionParser::NameOnly => section_name,
            SectionParser::NameExpression => section_name,
            SectionParser::Pcds => section_name,
            SectionParser::Depex => "depex"@,
            SectionParser::Sources => "sources"@,
            SectionParser::LibraryClasses => "libraryclasses"@,
            SectionParser::Defines => "defines"@,
            SectionParser::PatchPcd => "patchpcd"@,
            SectionParser::Binaries => "binaries"@,
            SectionParser::BuildOptions => "buildoptions"@,
        }
    }

    /// What reading one line gives: its row, or an error naming the expected shape and the line.
    pub open spec fn row_result(
        self,
        key: Seq<char>,
        value: Option<Seq<char>>,
        r: core::result::Result<Row, Error>,
    ) -> bool {
        match r {
            Ok(x) => self.spec_row(key, value) == Some(x.deep_view()),
            Err(e) => self.spec_row(key, value) is None && e.is_invalid_format(
                self.spec_hint(),
                self.spec_detected(key, value),
            ),
        }
    }

    /// The rows of the lines up to the first line that cannot be read, and that line.
    pub open spec fn spec_rows(self, lines: Seq<(Seq<char>, Option<Seq<char>>)>) -> (
        Seq<RowView>,
        Option<(Seq<char>, Option<Seq<char>>)>,
    )
        decreases lines.len(),
    {
        if lines.len() == 0 {
            (Seq::<RowView>::empty(), None)
        } else {
            let prev = self.spec_rows(lines.drop_last());
            if prev.1 is Some {
                prev
            } else {
                match self.spec_row(lines.last().0, lines.last().1) {
                    Some(r) => (prev.0.push(r), None),
                    None => (prev.0, Some(lines.last())),
                }
            }
        }
    }

    /// Reads one line into a row.
    pub fn row(&self, key: &String, value: &Option<String>) -> (r: core::result::Result<Row, Error>)
        ensures
            self.row_result(key@, value.deep_view(), r),
    {
        match self {
            SectionParser::NameOnly => name_only::row(key, value),
            SectionParser::NameExpression => name_expression::row(key, value),
            SectionParser::Pcds => pcds::row(key, value),
            SectionParser::Depex => depex::row(key, value),
            SectionParser::Sources => sources::row(key, value),
            SectionParser::LibraryClasses => libraryclasses::row(key, value),
            SectionParser::Defines => defines::row(key, value),
            SectionParser::PatchPcd => patchpcd::row(key, value),
            SectionParser::Binaries => binaries::row(key, value),
            SectionParser::BuildOptions => buildoptions::row(key, value),
        }
    }

    /// The table that holds the rows of the section `section_name`.
    pub fn table(&self, section_name: &String) -> (r: String)
        ensures
            r@ == self.spec_table(section_name@),
    {
        match self {
            SectionParser::NameOnly => section_name.clone(),
            SectionParser::NameExpression => section_name.clone(),
            SectionParser::Pcds => section_name.clone(),
            SectionParser::Depex => String::from_str("depex"),
            SectionParser::Sources => String::from_str("sources"),
            SectionParser::LibraryClasses => String::from_str("libraryclasses"),
            SectionParser::Defines => String::from_str("defines"),
            SectionParser::PatchPcd => String::from_str("patchpcd"),
            SectionParser::Binaries => String::from_str("binaries"),
            SectionParser::BuildOptions => String::from_str("buildoptions"),
        }
    }

    /// Reads the lines of a section into rows, in order, up to the first line that
    /// cannot be read; that line's error comes with the rows before it.
    pub fn parse_rows(
        &self,
        section: &Vec<(String, Option<String>)>,
        section_name: &String,
        scope1: &Option<String>,
        scope2: &Option<String>,
    ) -> (r: SectionRows)
        ensures
            r.describes(
                *self,
                section.deep_view(),
                section_name@,
                scope1.deep_view(),
                scope2.deep_view(),
            ),
    {
        let ghost lines = section.deep_view();
        let mut rows: Vec<Row> = Vec::new();
        let mut i: usize = 0;
        assert(lines.take(0) =~= Seq::<(Seq<char>, Option<Seq<char>>)>::empty());
        while i < section.len()
            invariant
                i <= section.len(),
                lines == section.deep_view(),
                rows.deep_view() == self.spec_rows(lines.take(i as int)).0,
                self.spec_rows(lines.take(i as int)).1 is None,
            decreases section.len() - i,
        {
            assert(lines.take(i + 1).drop_last() =~= lines.take(i as int));
            assert(lines.take(i + 1).last() == lines[i as int]);
            let (key, value) = &section[i];
            match self.row(key, value) {
                Ok(x) => {
                    rows.push(x);
                    i += 1;
                    assert(rows.deep_view() =~= self.spec_rows(lines.take(i as int)).0);
                },
                Err(e) => {
                    proof {
                        lemma_rows_stop(*self, lines, i as int);
                    }
                    return SectionRows {
                        table: self.table(section_name),
                        scope1: scope1.clone(),
                        scope2: scope2.clone(),
                        rows,
                        error: Some(e),
                    };
                },
            }
        }
        assert(lines.take(i as int) =~= lines);
        SectionRows {
            table: self.table(section_name),
            scope1: scope1.clone(),
            scope2: scope2.clone(),
            rows,
            error: None,
        }
    }
}

/// Once a line cannot be read, the lines after it change nothing.
pub proof fn lemma_rows_stop(p: SectionParser, lines: Seq<(Seq<char>, Option<Seq<char>>)>, i: int)
    requires
        0 <= i < lines.len(),
        p.spec_rows(lines.take(i)).1 is None,
        p.spec_row(lines[i].0, lines[i].1) is None,
    ensures
        p.spec_rows(lines) == (p.spec_rows(lines.take(i)).0, Some(lines[i])),
    decreases lines.len() - i,
{
    if i + 1 < lines.len() {
        assert(lines.take(i + 1).drop_last() =~= lines.take(i));
        lemma_rows_stop_after(p, lines, i + 1);
    } else {
        assert(lines.drop_last() =~= lines.take(i));
    }
}

/// Once the lines up to `j` hold a failing line, the lines after them change nothing.
pub proof fn lemma_rows_stop_after(p: SectionParser, lines: Seq<(Seq<char>, Option<Seq<char>>)>, j: int)
    requires
        0 <= j <= lines.len(),
        p.spec_rows(lines.take(j)).1 is Some,
    ensures
        p.spec_rows(lines) == p.spec_rows(lines.take(j)),
    decreases lines.len() - j,
{
    if j < lines.len() {
        assert(lines.take(j + 1).drop_last() =~= lines.take(j));
        lemma_rows_stop_after(p, lines, j + 1);
    } else {
        assert(lines.take(j) =~= lines);
    }
}

impl SectionRows {
    /// These rows are what reading `lines` of the section `section_name` with the
    /// scopes `scope1` and `scope2` by `p` gives.
    pub open spec fn describes(
        self,
        p: SectionParser,
        lines: Seq<(Seq<char>, Option<Seq<char>>)>,
        section_name: Seq<char>,
        scope1: Option<Seq<char>>,
        scope2: Option<Seq<char>>,
    ) -> bool {
        &&& self.table@ == p.spec_table(section_name)
        &&& self.scope1.deep_view() == scope1
        &&& self.scope2.deep_view() == scope2
        &&& self.rows.deep_view() == p.spec_rows(lines).0
        &&& match p.spec_rows(lines).1 {
            None => self.error is None,
            Some(line) => self.error matches Some(e) && e.is_invalid_format(
                p.spec_hint(),
                p.spec_detected(line.0, line.1),
            ),
        }
    }
}

} // verus!
