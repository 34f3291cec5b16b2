//! The kinds of description files: which sections each supports and
//! whether its lines may hold conditional directives.

use vstd::prelude::*;
use crate::rows::SectionParser;

verus! {

impl View for SectionParser {
    type V = SectionParser;

    open spec fn view(&self) -> SectionParser {
        *self
    }
}

impl DeepView for SectionParser {
    type V = SectionParser;

    open spec fn deep_view(&self) -> SectionParser {
        *self
    }
}

/// The reader of the first entry of `table` named `name`.
pub open spec fn spec_lookup(table: Seq<(Seq<char>, SectionParser)>, name: Seq<char>) -> Option<
    SectionParser,
>
    decreases table.len(),
{
    if table.len() == 0 {
        None
    } else if table[0].0 == name {
        Some(table[0].1)
    } else {
        spec_lookup(table.drop_first(), name)
    }
}

/// The reader of the section `name` in `table`.
pub fn lookup(table: &Vec<(String, SectionParser)>, name: &String) -> (r: Option<SectionParser>)
    ensures
        r == spec_lookup(table.deep_view(), name@),
{
    let ghost t = table.deep_view();
    let mut i: usize = 0;
    assert(t.skip(0) =~= t);
    while i < table.len()
        invariant
            i <= table.len(),
            t == table.deep_view(),
            spec_lookup(t.skip(i as int), name@) == spec_lookup(t, name@),
        decreases table.len() - i,
    {
        assert(t.skip(i as int)[0] == t[i as int]);
        if table[i].0 == *name {
            return Some(table[i].1);
        }
        assert(t.skip(i as int).drop_first() =~= t.skip(i + 1));
        i += 1;
    }
    assert(t.skip(i as int).len() == 0);
    None
}

/// A kind of description file.
pub trait Config: Sized + core::default::Default {
    /// Whether files of this kind may hold conditional directives.
    spec fn spec_has_conditionals() -> bool;

    /// The sections that files of this kind support, each with its reader.
    spec fn spec_supported_sections() -> Seq<(Seq<char>, SectionParser)>;

    /// Whether files of this kind may hold conditional directives.
    fn has_conditionals(&self) -> (r: bool)
        ensures
            r == Self::spec_has_conditionals(),
    ;

    /// The sections that files of this kind support, each with its reader.
    fn supported_sections(&self) -> (r: Vec<(String, SectionParser)>)
        ensures
            r.deep_view() == Self::spec_supported_sections(),
    ;
}

/// Module information files (`.inf`).
#[derive(Debug)]
pub struct Inf;

impl core::default::Default for Inf {
    fn default() -> (r: Inf)
        ensures
            r == Inf,
    {
        Inf
    }
}

/// The entry `(name, p)` of a table of readers.
fn entry(name: &str, p: SectionParser) -> (r: (String, SectionParser))
    ensures
        r.0@ == name@,
        r.1 == p,
{
    (String::from_str(name), p)
}

impl Config for Inf {
    open spec fn spec_has_conditionals() -> bool {
        false
    }

    open spec fn spec_supported_sections() -> Seq<(Seq<char>, SectionParser)> {
        seq![
            ("defines"@, SectionParser::Defines),
            ("sources"@, SectionParser::Sources),
            ("buildoptions"@, SectionParser::BuildOptions),
            ("binaries"@, SectionParser::Binaries),
            ("depex"@, SectionParser::Depex),
            ("fixedpcd"@, SectionParser::Pcds),
            ("guids"@, SectionParser::NameExpression),
            ("featurepcd"@, SectionParser::Pcds),
            ("libraryclasses"@, SectionParser::LibraryClasses),
            ("packages"@, SectionParser::NameOnly),
            ("patchpcd"@, SectionParser::PatchPcd),
            ("pcd"@, SectionParser::Pcds),
            ("pcdex"@, SectionParser::Pcds),
            ("ppis"@, SectionParser::NameExpression),
            ("protocols"@, SectionParser::NameExpression),
            ("userextensions"@, SectionParser::NameOnly),
        ]
    }

    fn has_conditionals(&self) -> (r: bool) {
        false
    }

    fn supported_sections(&self) -> (r: Vec<(String, SectionParser)>) {
        let mut r: Vec<(String, SectionParser)> = Vec::new();
        r.push(entry("defines", SectionParser::Defines));
        r.push(entry("sources", SectionParser::Sources));
        r.push(entry("buildoptions", SectionParser::BuildOptions));
        r.push(entry("binaries", SectionParser::Binaries));
        r.push(entry("depex", SectionParser::Depex));
        r.push(entry("fixedpcd", SectionParser::Pcds));
        r.push(entry("guids", SectionParser::NameExpression));
        r.push(entry("featurepcd", SectionParser::Pcds));
        r.push(entry("libraryclasses", SectionParser::LibraryClasses));
        r.push(entry("packages", SectionParser::NameOnly));
        r.push(entry("patchpcd", SectionParser::PatchPcd));
        r.push(entry("pcd", SectionParser::Pcds));
        r.push(entry("pcdex", SectionParser::Pcds));
        r.push(entry("ppis", SectionParser::NameExpression));
        r.push(entry("protocols", SectionParser::NameExpression));
        r.push(entry("userextensions", SectionParser::NameOnly));
        assert(r.deep_view() =~= Self::spec_supported_sections());
        r
    }
}

/// The readers of the sections of an INF file: defines, sources, build
/// options, binaries and dependency expressions each have their own reader;
/// the four PCD sections share the PCD reader; GUIDs, PPIs and protocols are
/// read as `<name>[|<expression>]`; packages and user extensions as a bare
/// name; library classes and patch PCDs have their own readers; every other
/// section name is refused.
pub proof fn lemma_inf_readers(name: Seq<char>)
    ensures
        ({
            let t = Inf::spec_supported_sections();
            &&& spec_lookup(t, "defines"@) == Some(SectionParser::Defines)
            &&& spec_lookup(t, "sources"@) == Some(SectionParser::Sources)
            &&& spec_lookup(t, "buildoptions"@) == Some(SectionParser::BuildOptions)
            &&& spec_lookup(t, "binaries"@) == Some(SectionParser::Binaries)
            &&& spec_lookup(t, "depex"@) == Some(SectionParser::Depex)
            &&& spec_lookup(t, "fixedpcd"@) == Some(SectionParser::Pcds)
            &&& spec_lookup(t, "guids"@) == Some(SectionParser::NameExpression)
            &&& spec_lookup(t, "featurepcd"@) == Some(SectionParser::Pcds)
            &&& spec_lookup(t, "libraryclasses"@) == Some(SectionParser::LibraryClasses)
            &&& spec_lookup(t, "packages"@) == Some(SectionParser::NameOnly)
            &&& spec_lookup(t, "patchpcd"@) == Some(SectionParser::PatchPcd)
            &&& spec_lookup(t, "pcd"@) == Some(SectionParser::Pcds)
            &&& spec_lookup(t, "pcdex"@) == Some(SectionParser::Pcds)
            &&& spec_lookup(t, "ppis"@) == Some(SectionParser::NameExpression)
            &&& spec_lookup(t, "protocols"@) == Some(SectionParser::NameExpression)
            &&& spec_lookup(t, "userextensions"@) == Some(SectionParser::NameOnly)
            &&& (name != "defines"@ && name != "sources"@ && name != "buildoptions"@ && name != "binaries"@ && name != "depex"@ && name != "fixedpcd"@ && name != "guids"@ && name != "featurepcd"@ && name != "libraryclasses"@ && name != "packages"@ && name != "patchpcd"@ && name != "pcd"@ && name != "pcdex"@ && name != "ppis"@ && name != "protocols"@ && name != "userextensions"@) ==> spec_lookup(t, name) is None
        }),
{
    reveal_with_fuel(spec_lookup, 17);
    reveal_strlit("defines");
    reveal_strlit("sources");
    reveal_strlit("buildoptions");
    reveal_strlit("binaries");
    reveal_strlit("depex");
    reveal_strlit("fixedpcd");
    reveal_strlit("guids");
    reveal_strlit("featurepcd");
    reveal_strlit("libraryclasses");
    reveal_strlit("packages");
    reveal_strlit("patchpcd");
    reveal_strlit("pcd");
    reveal_strlit("pcdex");
    reveal_strlit("ppis");
    reveal_strlit("protocols");
    reveal_strlit("userextensions");
    assert("defines"@.len() == 7 && "defines"@[0] == 'd');
    assert("sources"@.len() == 7 && "sources"@[0] == 's');
    assert("buildoptions"@.len() == 12 && "buildoptions"@[0] == 'b');
    assert("binaries"@.len() == 8 && "binaries"@[0] == 'b');
    assert("depex"@.len() == 5 && "depex"@[0] == 'd');
    assert("fixedpcd"@.len() == 8 && "fixedpcd"@[0] == 'f');
    assert("guids"@.len() == 5 && "guids"@[0] == 'g');
    assert("featurepcd"@.len() == 10 && "featurepcd"@[0] == 'f');
    assert("libraryclasses"@.len() == 14 && "libraryclasses"@[0] == 'l');
    assert("packages"@.len() == 8 && "packages"@[0] == 'p');
    assert("patchpcd"@.len() == 8 && "patchpcd"@[0] == 'p');
    assert("pcd"@.len() == 3 && "pcd"@[0] == 'p');
    assert("pcdex"@.len() == 5 && "pcdex"@[0] == 'p');
    assert("ppis"@.len() == 4 && "ppis"@[0] == 'p');
    assert("protocols"@.len() == 9 && "protocols"@[0] == 'p');
    assert("userextensions"@.len() == 14 && "userextensions"@[0] == 'u');
    assert("packages"@[2] == 'c' && "patchpcd"@[2] == 't');
    assert("fixedpcd"@[1] == 'i' && "featurepcd"@[1] == 'e');
    assert("pcd"@[1] == 'c' && "ppis"@[1] == 'p');
}

/// Platform description files (`.dsc`).
#[derive(Debug)]
pub struct Dsc;

impl core::default::Default for Dsc {
    fn default() -> (r: Dsc)
        ensures
            r == Dsc,
    {
        Dsc
    }
}

impl Config for Dsc {
    open spec fn spec_has_conditionals() -> bool {
        true
    }

    open spec fn spec_supported_sections() -> Seq<(Seq<char>, SectionParser)> {
        Seq::empty()
    }

    fn has_conditionals(&self) -> (r: bool) {
        true
    }

    fn supported_sections(&self) -> (r: Vec<(String, SectionParser)>) {
        let r: Vec<(String, SectionParser)> = Vec::new();
        assert(r.deep_view() =~= Self::spec_supported_sections());
        r
    }
}

} // verus!
