//! The entries of the sections of an INF file, one per line, and their
//! encoding as MessagePack records.

pub mod common;
pub mod specific;

use vstd::prelude::*;
use crate::codec::{decode_record, encode_record, msgpack_decoded, msgpack_record, record_fits};
use crate::err::ParseError;
use crate::shapes::{
    binary_shape, build_option_shape, option_delimiters, parse_binary, parse_build_option,
    parse_patch_pcd, parse_pcd, parse_two_fields, patch_pcd_shape, pcd_shape, pipe_pieces,
    two_field_shape,
};
use crate::text::{lemma_split_nonempty, split, split_once, text_eq, trim, trim_str};

verus! {

/// `sep` then the text, when there is one.
pub open spec fn opt_suffix(sep: Seq<char>, o: Option<Seq<char>>) -> Seq<char> {
    match o {
        Some(x) => sep + x,
        None => Seq::<char>::empty(),
    }
}

/// The text then `sep`, when there is one.
pub open spec fn opt_prefix(o: Option<Seq<char>>, sep: Seq<char>) -> Seq<char> {
    match o {
        Some(x) => x + sep,
        None => Seq::<char>::empty(),
    }
}

/// `sep` then the text, when there is one.
pub fn opt_suffix_string(sep: &str, o: &Option<String>) -> (r: String)
    ensures
        r@ == opt_suffix(sep@, o.deep_view()),
{
    match o {
        Some(x) => String::from_str(sep).concat(x.as_str()),
        None => String::new(),
    }
}

/// The text then `sep`, when there is one.
pub fn opt_prefix_string(o: &Option<String>, sep: &str) -> (r: String)
    ensures
        r@ == opt_prefix(o.deep_view(), sep@),
{
    match o {
        Some(x) => x.clone().concat(sep),
        None => String::new(),
    }
}

/// A copy of the field `fs[i]`.
fn field_at(fs: &Vec<Option<String>>, i: usize) -> (r: Option<String>)
    requires
        i < fs.len(),
    ensures
        r.deep_view() == fs.deep_view()[i as int],
{
    match &fs[i] {
        Some(t) => Some(t.clone()),
        None => None,
    }
}

/// The sections of an INF file.
#[derive(Debug, Clone, Copy, PartialEq, Eq, Hash, Structural)]
pub enum SectionType {
    Defines,
    Sources,
    Binaries,
    Protocols,
    Ppis,
    Guids,
    LibraryClasses,
    Packages,
    FeaturePcd,
    FixedPcd,
    PatchPcd,
    Pcd,
    PcdEx,
    Depex,
    UserExtensions,
    BuildOptions,
}

impl SectionType {
    /// The section called `name` (lower case), if there is one.
    pub open spec fn spec_named(name: Seq<char>) -> Option<SectionType> {
        if name == "defines"@ {
            Some(SectionType::Defines)
        } else if name == "sources"@ {
            Some(SectionType::Sources)
        } else if name == "binaries"@ {
            Some(SectionType::Binaries)
        } else if name == "protocols"@ {
            Some(SectionType::Protocols)
        } else if name == "ppis"@ {
            Some(SectionType::Ppis)
        } else if name == "guids"@ {
            Some(SectionType::Guids)
        } else if name == "libraryclasses"@ {
            Some(SectionType::LibraryClasses)
        } else if name == "packages"@ {
            Some(SectionType::Packages)
        } else if name == "featurepcd"@ {
            Some(SectionType::FeaturePcd)
        } else if name == "fixedpcd"@ {
            Some(SectionType::FixedPcd)
        } else if name == "patchpcd"@ {
            Some(SectionType::PatchPcd)
        } else if name == "pcd"@ {
            Some(SectionType::Pcd)
        } else if name == "pcdex"@ {
            Some(SectionType::PcdEx)
        } else if name == "depex"@ {
            Some(SectionType::Depex)
        } else if name == "userextensions"@ {
            Some(SectionType::UserExtensions)
        } else if name == "buildoptions"@ {
            Some(SectionType::BuildOptions)
        } else {
            None
        }
    }

    /// The name of the section, lower case, as its entries report it.
    pub open spec fn spec_name(self) -> Seq<char> {
        match self {
            SectionType::Defines => "defines"@,
            SectionType::Sources => "sources"@,
            SectionType::Binaries => "binaries"@,
            SectionType::Protocols => "protocols"@,
            SectionType::Ppis => "ppis"@,
            SectionType::Guids => "guids"@,
            SectionType::LibraryClasses => "libraryclasses"@,
            SectionType::Packages => "packages"@,
            SectionType::FeaturePcd => "featurepcd"@,
            SectionType::FixedPcd => "fixedpcd"@,
            SectionType::PatchPcd => "patchpcd"@,
            SectionType::Pcd => "pcd"@,
            SectionType::PcdEx => "pcdex"@,
            SectionType::Depex => "depex"@,
            SectionType::UserExtensions => "userextensions"@,
            SectionType::BuildOptions => "buildoptions"@,
        }
    }

    /// Every section is found by its name, and by no other name.
    pub proof fn lemma_found_by_name(self, name: Seq<char>)
        ensures
            Self::spec_named(self.spec_name()) == Some(self),
            Self::spec_named(name) == Some(self) <==> name == self.spec_name(),
    {
        reveal_strlit("defines");
        reveal_strlit("sources");
        reveal_strlit("binaries");
        reveal_strlit("protocols");
        reveal_strlit("ppis");
        reveal_strlit("guids");
        reveal_strlit("libraryclasses");
        reveal_strlit("packages");
        reveal_strlit("featurepcd");
        reveal_strlit("fixedpcd");
        reveal_strlit("patchpcd");
        reveal_strlit("pcd");
        reveal_strlit("pcdex");
        reveal_strlit("depex");
        reveal_strlit("userextensions");
        reveal_strlit("buildoptions");
        assert("defines"@.len() == 7 && "defines"@[0] == 'd');
        assert("sources"@.len() == 7 && "sources"@[0] == 's');
        assert("binaries"@.len() == 8 && "binaries"@[0] == 'b');
        assert("protocols"@.len() == 9 && "protocols"@[0] == 'p');
        assert("ppis"@.len() == 4 && "ppis"@[0] == 'p');
        assert("guids"@.len() == 5 && "guids"@[0] == 'g');
        assert("libraryclasses"@.len() == 14 && "libraryclasses"@[0] == 'l');
        assert("packages"@.len() == 8 && "packages"@[0] == 'p');
        assert("featurepcd"@.len() == 10 && "featurepcd"@[0] == 'f');
        assert("fixedpcd"@.len() == 8 && "fixedpcd"@[0] == 'f');
        assert("patchpcd"@.len() == 8 && "patchpcd"@[0] == 'p');
        assert("pcd"@.len() == 3 && "pcd"@[0] == 'p');
        assert("pcdex"@.len() == 5 && "pcdex"@[0] == 'p');
        assert("depex"@.len() == 5 && "depex"@[0] == 'd');
        assert("userextensions"@.len() == 14 && "userextensions"@[0] == 'u');
        assert("buildoptions"@.len() == 12 && "buildoptions"@[0] == 'b');
        assert("packages"@[2] == 'c' && "patchpcd"@[2] == 't');
    }

    /// A line of a section is refused, by its reader and so by `to_bytes`,
    /// exactly when its shape is wrong for the section: a define without a
    /// value; more than two `|` pieces for sources, protocols, PPIs, GUIDs and
    /// library classes; fewer than two or more than five for binaries; more than
    /// three, or a first piece without `.`, for PCDs; other than three, or a
    /// first piece without `.`, for patch PCDs; a build option name that does
    /// not split into five or six parts at `:` and `_`; never for packages,
    /// dependency expressions and user extensions.
    pub proof fn lemma_refused_exactly(self, key: Seq<char>, value: Option<Seq<char>>)
        ensures
            self.spec_record(key, value) is None <==> match self {
                SectionType::Defines => value is None,
                SectionType::Sources | SectionType::Protocols | SectionType::Ppis
                | SectionType::Guids | SectionType::LibraryClasses => pipe_pieces(key).len() > 2,
                SectionType::Binaries => pipe_pieces(key).len() < 2 || pipe_pieces(key).len() > 5,
                SectionType::Packages | SectionType::Depex | SectionType::UserExtensions => false,
                SectionType::FeaturePcd | SectionType::FixedPcd | SectionType::Pcd
                | SectionType::PcdEx => pipe_pieces(key).len() > 3 || split_once(
                    pipe_pieces(key)[0],
                    '.',
                ) is None,
                SectionType::PatchPcd => pipe_pieces(key).len() != 3 || split_once(
                    pipe_pieces(key)[0],
                    '.',
                ) is None,
                SectionType::BuildOptions => !(split(key, option_delimiters()).len() == 5 || split(
                    key,
                    option_delimiters(),
                ).len() == 6),
            },
    {
        lemma_split_nonempty(key, seq!['|']);
    }

    /// The fields of the entry that a line of this section describes, if any.
    pub open spec fn spec_record(self, key: Seq<char>, value: Option<Seq<char>>) -> Option<
        Seq<Option<Seq<char>>>,
    > {
        match self {
            SectionType::Defines => match DefineEntry::spec_from_key_value_pair(key, value) {
                Some(e) => Some(DefineEntry::spec_fields(e)),
                None => None,
            },
            SectionType::Sources => match SourceEntry::spec_from_key_value_pair(key, value) {
                Some(e) => Some(SourceEntry::spec_fields(e)),
                None => None,
            },
            SectionType::Binaries => match BinaryEntry::spec_from_key_value_pair(key, value) {
                Some(e) => Some(BinaryEntry::spec_fields(e)),
                None => None,
            },
            SectionType::Protocols => match ProtocolEntry::spec_from_key_value_pair(key, value) {
                Some(e) => Some(ProtocolEntry::spec_fields(e)),
                None => None,
            },
            SectionType::Ppis => match PpiEntry::spec_from_key_value_pair(key, value) {
                Some(e) => Some(PpiEntry::spec_fields(e)),
                None => None,
            },
            SectionType::Guids => match GuidEntry::spec_from_key_value_pair(key, value) {
                Some(e) => Some(GuidEntry::spec_fields(e)),
                None => None,
            },
            SectionType::LibraryClasses => match LibraryClassEntry::spec_from_key_value_pair(key, value) {
                Some(e) => Some(LibraryClassEntry::spec_fields(e)),
                None => None,
            },
            SectionType::Packages => match PackageEntry::spec_from_key_value_pair(key, value) {
                Some(e) => Some(PackageEntry::spec_fields(e)),
                None => None,
            },
            SectionType::FeaturePcd => match FeaturePcdEntry::spec_from_key_value_pair(key, value) {
                Some(e) => Some(FeaturePcdEntry::spec_fields(e)),
                None => None,
            },
            SectionType::FixedPcd => match FixedPcdEntry::spec_from_key_value_pair(key, value) {
                Some(e) => Some(FixedPcdEntry::spec_fields(e)),
                None => None,
            },
            SectionType::PatchPcd => match PatchPcdEntry::spec_from_key_value_pair(key, value) {
                Some(e) => Some(PatchPcdEntry::spec_fields(e)),
                None => None,
            },
            SectionType::Pcd => match PcdEntry::spec_from_key_value_pair(key, value) {
                Some(e) => Some(PcdEntry::spec_fields(e)),
                None => None,
            },
            SectionType::PcdEx => match PcdExEntry::spec_from_key_value_pair(key, value) {
                Some(e) => Some(PcdExEntry::spec_fields(e)),
                None => None,
            },
            SectionType::Depex => match DepexEntry::spec_from_key_value_pair(key, value) {
                Some(e) => Some(DepexEntry::spec_fields(e)),
                None => None,
            },
            SectionType::UserExtensions => match UserExtensionEntry::spec_from_key_value_pair(key, value) {
                Some(e) => Some(UserExtensionEntry::spec_fields(e)),
                None => None,
            },
            SectionType::BuildOptions => match BuildOptionEntry::spec_from_key_value_pair(key, value) {
                Some(e) => Some(BuildOptionEntry::spec_fields(e)),
                None => None,
            },
        }
    }

    /// The shape that the lines of this section must have.
    pub open spec fn spec_hint(self) -> Seq<char> {
        match self {
            SectionType::Defines => "<name> = <value>"@,
            SectionType::Sources => "<path>[|<family>]"@,
            SectionType::Binaries => "<filetype>|<path>[|<target>[|<family>[|<tagname>]]]"@,
            SectionType::Protocols => "<name>[|<expression>]"@,
            SectionType::Ppis => "<name>[|<expression>]"@,
            SectionType::Guids => "<name>[|<expression>]"@,
            SectionType::LibraryClasses => "<name>[|<expression>]"@,
            SectionType::Packages => ""@,
            SectionType::FeaturePcd => "<token_space>.<name>[|<value>][|<expression>]"@,
            SectionType::FixedPcd => "<token_space>.<name>[|<value>][|<expression>]"@,
            SectionType::PatchPcd => "PatchPcdEntry must be in format <token_space>.<name>|<value>|<hex>"@,
            SectionType::Pcd => "<token_space>.<name>[|<value>][|<expression>]"@,
            SectionType::PcdEx => "<token_space>.<name>[|<value>][|<expression>]"@,
            SectionType::Depex => ""@,
            SectionType::UserExtensions => ""@,
            SectionType::BuildOptions => "[<family>:]<target>_<tagname>_<arch>_<tool_code>_<attribute> = <value>"@,
        }
    }

    /// The section called `section_name`.
    pub fn from_str(section_name: &str) -> (r: core::result::Result<SectionType, ParseError>)
        ensures
            match r {
                Ok(t) => Self::spec_named(section_name@) == Some(t),
                Err(e) => Self::spec_named(section_name@) is None && e.is_unknown_section(
                    section_name@,
                ),
            },
    {
        if text_eq(section_name, "defines") {
            return Ok(SectionType::Defines);
        }
        if text_eq(section_name, "sources") {
            return Ok(SectionType::Sources);
        }
        if text_eq(section_name, "binaries") {
            return Ok(SectionType::Binaries);
        }
        if text_eq(section_name, "protocols") {
            return Ok(SectionType::Protocols);
        }
        if text_eq(section_name, "ppis") {
            return Ok(SectionType::Ppis);
        }
        if text_eq(section_name, "guids") {
            return Ok(SectionType::Guids);
        }
        if text_eq(section_name, "libraryclasses") {
            return Ok(SectionType::LibraryClasses);
        }
        if text_eq(section_name, "packages") {
            return Ok(SectionType::Packages);
        }
        if text_eq(section_name, "featurepcd") {
            return Ok(SectionType::FeaturePcd);
        }
        if text_eq(section_name, "fixedpcd") {
            return Ok(SectionType::FixedPcd);
        }
        if text_eq(section_name, "patchpcd") {
            return Ok(SectionType::PatchPcd);
        }
        if text_eq(section_name, "pcd") {
            return Ok(SectionType::Pcd);
        }
        if text_eq(section_name, "pcdex") {
            return Ok(SectionType::PcdEx);
        }
        if text_eq(section_name, "depex") {
            return Ok(SectionType::Depex);
        }
        if text_eq(section_name, "userextensions") {
            return Ok(SectionType::UserExtensions);
        }
        if text_eq(section_name, "buildoptions") {
            return Ok(SectionType::BuildOptions);
        }
        Err(ParseError::UnknownSection(String::from_str(section_name)))
    }

    /// Reads the entry that `key` and `value` describe in this section and encodes it.
    pub fn to_bytes(&self, key: String, value: Option<String>) -> (r: core::result::Result<Vec<u8>, ParseError>)
        ensures
            match r {
                Ok(b) => self.spec_record(key@, value.deep_view()) matches Some(f) && b@
                    == msgpack_record(f),
                Err(e) => self.spec_record(key@, value.deep_view()) is None
                    && e.is_invalid_format(self.spec_hint()),
            },
    {
        match self {
            SectionType::Defines => DefineEntry::to_bytes(key, value),
            SectionType::Sources => SourceEntry::to_bytes(key, value),
            SectionType::Binaries => BinaryEntry::to_bytes(key, value),
            SectionType::Protocols => ProtocolEntry::to_bytes(key, value),
            SectionType::Ppis => PpiEntry::to_bytes(key, value),
            SectionType::Guids => GuidEntry::to_bytes(key, value),
            SectionType::LibraryClasses => LibraryClassEntry::to_bytes(key, value),
            SectionType::Packages => PackageEntry::to_bytes(key, value),
            SectionType::FeaturePcd => FeaturePcdEntry::to_bytes(key, value),
            SectionType::FixedPcd => FixedPcdEntry::to_bytes(key, value),
            SectionType::PatchPcd => PatchPcdEntry::to_bytes(key, value),
            SectionType::Pcd => PcdEntry::to_bytes(key, value),
            SectionType::PcdEx => PcdExEntry::to_bytes(key, value),
            SectionType::Depex => DepexEntry::to_bytes(key, value),
            SectionType::UserExtensions => UserExtensionEntry::to_bytes(key, value),
            SectionType::BuildOptions => BuildOptionEntry::to_bytes(key, value),
        }
    }
}

/// One line of the `[Defines]` section: `<name> = <value>`. As many define entries
/// are structured differently, the value is left for the caller to read further.
#[derive(Debug)]
pub struct DefineEntry {
    pub name: String,
    pub value: String,
}

impl View for DefineEntry {
    type V = (Seq<char>, Seq<char>);

    open spec fn view(&self) -> (Seq<char>, Seq<char>) {
        (self.name@, self.value@)
    }
}

impl DefineEntry {
    /// The entry that the key and the optional value of a line describe, if any.
    pub open spec fn spec_from_key_value_pair(key: Seq<char>, value: Option<Seq<char>>) -> Option<(Seq<char>, Seq<char>)> {
        match value {
            Some(v) => Some((trim(key), trim(v))),
            None => None,
        }
    }

    /// The fields of an entry in the order in which they are stored.
    pub open spec fn spec_fields(e: (Seq<char>, Seq<char>)) -> Seq<Option<Seq<char>>> {
        seq![Some(e.0), Some(e.1)]
    }

    /// The entry whose fields, in the order in which they are stored, are `fs`, if they make one.
    pub open spec fn spec_from_fields(fs: Seq<Option<Seq<char>>>) -> Option<(Seq<char>, Seq<char>)> {
        if fs.len() == 2 && fs[0] is Some && fs[1] is Some {
            Some((fs[0]->0, fs[1]->0))
        } else {
            None
        }
    }

    /// The text that renders an entry.
    pub open spec fn spec_to_string(e: (Seq<char>, Seq<char>)) -> Seq<char> {
        e.0 + " = "@ + e.1
    }

    /// The entry whose fields, in the order in which they are stored, are `fs`, if they make one.
    fn from_fields(fs: &Vec<Option<String>>) -> (r: Option<Self>)
        ensures
            match Self::spec_from_fields(fs.deep_view()) {
                Some(v) => r matches Some(e) && e@ == v,
                None => r is None,
            },
    {
        if fs.len() != 2 {
            return None;
        }
        match (field_at(fs, 0), field_at(fs, 1)) {
            (Some(name), Some(value)) => Some(DefineEntry { name, value }),
            _ => None,
        }
    }

    /// Decodes the record form that `to_bytes` writes: a MessagePack array of
    /// the entry's fields in the order in which they are stored. Other forms
    /// that a serde reader of the entry would also take, such as a map from
    /// field names to values, are not read here.
    pub fn from_record(buf: &[u8]) -> (r: Option<Self>)
        ensures
            match msgpack_decoded(buf@) {
                Some(fs) => match Self::spec_from_fields(fs) {
                    Some(v) => r matches Some(e) && e@ == v,
                    None => r is None,
                },
                None => r is None,
            },
            forall|v: (Seq<char>, Seq<char>)|
                record_fits(#[trigger] Self::spec_fields(v)) && buf@ == msgpack_record(Self::spec_fields(v))
                    ==> (r matches Some(e) && e@ == v),
    {
        match decode_record(buf) {
            Some(fs) => Self::from_fields(&fs),
            None => None,
        }
    }

    /// The name of the section that holds such entries.
    pub fn section_name() -> (r: &'static str)
        ensures
            r@ == "defines"@,
    {
        "defines"
    }

    /// Reads the entry from the key and the optional value of a line.
    pub fn from_key_value_pair(key: String, value: Option<String>) -> (r: core::result::Result<Self, ParseError>)
        ensures
            match r {
                Ok(e) => Self::spec_from_key_value_pair(key@, value.deep_view()) == Some(e@),
                Err(err) => Self::spec_from_key_value_pair(key@, value.deep_view()) is None
                    && err.is_invalid_format("<name> = <value>"@),
            },
    {
        match value {
            Some(v) => Ok(DefineEntry { name: trim_str(key.as_str()), value: trim_str(v.as_str()) }),
            None => Err(ParseError::InvalidFormat(String::from_str("<name> = <value>"))),
        }
    }

    /// The fields of the entry in the order in which they are stored.
    pub fn fields(&self) -> (r: Vec<Option<String>>)
        ensures
            r.deep_view() == Self::spec_fields(self@),
    {
        let mut r: Vec<Option<String>> = Vec::new();
        r.push(Some(self.name.clone()));
        r.push(Some(self.value.clone()));
        assert(r.deep_view() =~= Self::spec_fields(self@));
        r
    }

    /// The text that renders the entry.
    pub fn to_string(&self) -> (r: String)
        ensures
            r@ == Self::spec_to_string(self@),
    {
        self.name.clone().concat(" = ").concat(self.value.as_str())
    }

    /// Reads the entry from a line and encodes it as MessagePack.
    pub fn to_bytes(key: String, value: Option<String>) -> (r: core::result::Result<Vec<u8>, ParseError>)
        ensures
            match r {
                Ok(b) => Self::spec_from_key_value_pair(key@, value.deep_view()) matches Some(e)
                    && b@ == msgpack_record(Self::spec_fields(e)),
                Err(err) => Self::spec_from_key_value_pair(key@, value.deep_view()) is None
                    && err.is_invalid_format("<name> = <value>"@),
            },
    {
        match Self::from_key_value_pair(key, value) {
            Ok(e) => Ok(encode_record(&e.fields())),
            Err(err) => Err(err),
        }
    }
}

/// One line of the `[Sources]` section: `<path>[|<family>]`.
#[derive(Debug)]
pub struct SourceEntry {
    pub path: String,
    pub family: Option<String>,
}

impl View for SourceEntry {
    type V = (Seq<char>, Option<Seq<char>>);

    open spec fn view(&self) -> (Seq<char>, Option<Seq<char>>) {
        (self.path@, self.family.deep_view())
    }
}

impl SourceEntry {
    /// The entry that the key and the optional value of a line describe, if any.
    pub open spec fn spec_from_key_value_pair(key: Seq<char>, value: Option<Seq<char>>) -> Option<(Seq<char>, Option<Seq<char>>)> {
        two_field_shape(key, true)
    }

    /// The fields of an entry in the order in which they are stored.
    pub open spec fn spec_fields(e: (Seq<char>, Option<Seq<char>>)) -> Seq<Option<Seq<char>>> {
        seq![Some(e.0), e.1]
    }

    /// The entry whose fields, in the order in which they are stored, are `fs`, if they make one.
    pub open spec fn spec_from_fields(fs: Seq<Option<Seq<char>>>) -> Option<(Seq<char>, Option<Seq<char>>)> {
        if fs.len() == 2 && fs[0] is Some {
            Some((fs[0]->0, fs[1]))
        } else {
            None
        }
    }

    /// The text that renders an entry.
    pub open spec fn spec_to_string(e: (Seq<char>, Option<Seq<char>>)) -> Seq<char> {
        e.0 + opt_suffix("|"@, e.1)
    }

    /// The entry whose fields, in the order in which they are stored, are `fs`, if they make one.
    fn from_fields(fs: &Vec<Option<String>>) -> (r: Option<Self>)
        ensures
            match Self::spec_from_fields(fs.deep_view()) {
                Some(v) => r matches Some(e) && e@ == v,
                None => r is None,
            },
    {
        if fs.len() != 2 {
            return None;
        }
        match (field_at(fs, 0), field_at(fs, 1)) {
            (Some(path), family) => Some(SourceEntry { path, family }),
            _ => None,
        }
    }

    /// Decodes the record form that `to_bytes` writes: a MessagePack array of
    /// the entry's fields in the order in which they are stored. Other forms
    /// that a serde reader of the entry would also take, such as a map from
    /// field names to values, are not read here.
    pub fn from_record(buf: &[u8]) -> (r: Option<Self>)
        ensures
            match msgpack_decoded(buf@) {
                Some(fs) => match Self::spec_from_fields(fs) {
                    Some(v) => r matches Some(e) && e@ == v,
                    None => r is None,
                },
                None => r is None,
            },
            forall|v: (Seq<char>, Option<Seq<char>>)|
                record_fits(#[trigger] Self::spec_fields(v)) && buf@ == msgpack_record(Self::spec_fields(v))
                    ==> (r matches Some(e) && e@ == v),
    {
        match decode_record(buf) {
            Some(fs) => Self::from_fields(&fs),
            None => None,
        }
    }

    /// The name of the section that holds such entries.
    pub fn section_name() -> (r: &'static str)
        ensures
            r@ == "sources"@,
    {
        "sources"
    }

    /// Reads the entry from the key and the optional value of a line.
    pub fn from_key_value_pair(key: String, value: Option<String>) -> (r: core::result::Result<Self, ParseError>)
        ensures
            match r {
                Ok(e) => Self::spec_from_key_value_pair(key@, value.deep_view()) == Some(e@),
                Err(err) => Self::spec_from_key_value_pair(key@, value.deep_view()) is None
                    && err.is_invalid_format("<path>[|<family>]"@),
            },
    {
        match parse_two_fields(key.as_str(), true) {
            Some((path, family)) => Ok(SourceEntry { path, family }),
            None => Err(ParseError::InvalidFormat(String::from_str("<path>[|<family>]"))),
        }
    }

    /// The fields of the entry in the order in which they are stored.
    pub fn fields(&self) -> (r: Vec<Option<String>>)
        ensures
            r.deep_view() == Self::spec_fields(self@),
    {
        let mut r: Vec<Option<String>> = Vec::new();
        r.push(Some(self.path.clone()));
        r.push(self.family.clone());
        assert(r.deep_view() =~= Self::spec_fields(self@));
        r
    }

    /// The text that renders the entry.
    pub fn to_string(&self) -> (r: String)
        ensures
            r@ == Self::spec_to_string(self@),
    {
        self.path.clone().concat(opt_suffix_string("|", &self.family).as_str())
    }

    /// Reads the entry from a line and encodes it as MessagePack.
    pub fn to_bytes(key: String, value: Option<String>) -> (r: core::result::Result<Vec<u8>, ParseError>)
        ensures
            match r {
                Ok(b) => Self::spec_from_key_value_pair(key@, value.deep_view()) matches Some(e)
                    && b@ == msgpack_record(Self::spec_fields(e)),
                Err(err) => Self::spec_from_key_value_pair(key@, value.deep_view()) is None
                    && err.is_invalid_format("<path>[|<family>]"@),
            },
    {
        match Self::from_key_value_pair(key, value) {
            Ok(e) => Ok(encode_record(&e.fields())),
            Err(err) => Err(err),
        }
    }
}

/// One line of the `[Binaries]` section:
/// `<filetype>|<path>[|<target>[|<family>[|<tagname>]]]`, the absent parts `*`.
#[derive(Debug)]
pub struct BinaryEntry {
    pub filetype: String,
    pub path: String,
    pub target: String,
    pub tagname: String,
    pub family: String,
}

impl View for BinaryEntry {
    type V = (Seq<char>, Seq<char>, Seq<char>, Seq<char>, Seq<char>);

    open spec fn view(&self) -> (Seq<char>, Seq<char>, Seq<char>, Seq<char>, Seq<char>) {
        (self.filetype@, self.path@, self.target@, self.tagname@, self.family@)
    }
}

impl BinaryEntry {
    /// The entry that the key and the optional value of a line describe, if any.
    pub open spec fn spec_from_key_value_pair(key: Seq<char>, value: Option<Seq<char>>) -> Option<(Seq<char>, Seq<char>, Seq<char>, Seq<char>, Seq<char>)> {
        match binary_shape(key, true) {
            Some((filetype, path, target, family, tagname)) => Some((filetype, path, target, tagname, family)),
            None => None,
        }
    }

    /// The fields of an entry in the order in which they are stored.
    pub open spec fn spec_fields(e: (Seq<char>, Seq<char>, Seq<char>, Seq<char>, Seq<char>)) -> Seq<Option<Seq<char>>> {
        seq![Some(e.0), Some(e.1), Some(e.2), Some(e.3), Some(e.4)]
    }

    /// The entry whose fields, in the order in which they are stored, are `fs`, if they make one.
    pub open spec fn spec_from_fields(fs: Seq<Option<Seq<char>>>) -> Option<(Seq<char>, Seq<char>, Seq<char>, Seq<char>, Seq<char>)> {
        if fs.len() == 5 && fs[0] is Some && fs[1] is Some && fs[2] is Some && fs[3] is Some && fs[4] is Some {
            Some((fs[0]->0, fs[1]->0, fs[2]->0, fs[3]->0, fs[4]->0))
        } else {
            None
        }
    }

    /// The text that renders an entry.
    pub open spec fn spec_to_string(e: (Seq<char>, Seq<char>, Seq<char>, Seq<char>, Seq<char>)) -> Seq<char> {
        e.0 + "|"@ + e.1 + "|"@ + e.2 + "|"@ + e.4 + "|"@ + e.3
    }

    /// The entry whose fields, in the order in which they are stored, are `fs`, if they make one.
    fn from_fields(fs: &Vec<Option<String>>) -> (r: Option<Self>)
        ensures
            match Self::spec_from_fields(fs.deep_view()) {
                Some(v) => r matches Some(e) && e@ == v,
                None => r is None,
            },
    {
        if fs.len() != 5 {
            return None;
        }
        match (field_at(fs, 0), field_at(fs, 1), field_at(fs, 2), field_at(fs, 3), field_at(fs, 4)) {
            (Some(filetype), Some(path), Some(target), Some(tagname), Some(family)) => Some(BinaryEntry { filetype, path, target, tagname, family }),
            _ => None,
        }
    }

    /// Decodes the record form that `to_bytes` writes: a MessagePack array of
    /// the entry's fields in the order in which they are stored. Other forms
    /// that a serde reader of the entry would also take, such as a map from
    /// field names to values, are not read here.
    pub fn from_record(buf: &[u8]) -> (r: Option<Self>)
        ensures
            match msgpack_decoded(buf@) {
                Some(fs) => match Self::spec_from_fields(fs) {
                    Some(v) => r matches Some(e) && e@ == v,
                    None => r is None,
                },
                None => r is None,
            },
            forall|v: (Seq<char>, Seq<char>, Seq<char>, Seq<char>, Seq<char>)|
                record_fits(#[trigger] Self::spec_fields(v)) && buf@ == msgpack_record(Self::spec_fields(v))
                    ==> (r matches Some(e) && e@ == v),
    {
        match decode_record(buf) {
            Some(fs) => Self::from_fields(&fs),
            None => None,
        }
    }

    /// The name of the section that holds such entries.
    pub fn section_name() -> (r: &'static str)
        ensures
            r@ == "binaries"@,
    {
        "binaries"
    }

    /// Reads the entry from the key and the optional value of a line.
    pub fn from_key_value_pair(key: String, value: Option<String>) -> (r: core::result::Result<Self, ParseError>)
        ensures
            match r {
                Ok(e) => Self::spec_from_key_value_pair(key@, value.deep_view()) == Some(e@),
                Err(err) => Self::spec_from_key_value_pair(key@, value.deep_view()) is None
                    && err.is_invalid_format("<filetype>|<path>[|<target>[|<family>[|<tagname>]]]"@),
            },
    {
        match parse_binary(key.as_str(), true) {
            Some((filetype, path, target, family, tagname)) => Ok(
                BinaryEntry { filetype, path, target, tagname, family },
            ),
            None => Err(
                ParseError::InvalidFormat(
                    String::from_str("<filetype>|<path>[|<target>[|<family>[|<tagname>]]]"),
                ),
            ),
        }
    }

    /// The fields of the entry in the order in which they are stored.
    pub fn fields(&self) -> (r: Vec<Option<String>>)
        ensures
            r.deep_view() == Self::spec_fields(self@),
    {
        let mut r: Vec<Option<String>> = Vec::new();
        r.push(Some(self.filetype.clone()));
        r.push(Some(self.path.clone()));
        r.push(Some(self.target.clone()));
        r.push(Some(self.tagname.clone()));
        r.push(Some(self.family.clone()));
        assert(r.deep_view() =~= Self::spec_fields(self@));
        r
    }

    /// The text that renders the entry.
    pub fn to_string(&self) -> (r: String)
        ensures
            r@ == Self::spec_to_string(self@),
    {
        self.filetype.clone().concat("|").concat(self.path.as_str()).concat("|").concat(
            self.target.as_str(),
        ).concat("|").concat(self.family.as_str()).concat("|").concat(self.tagname.as_str())
    }

    /// Reads the entry from a line and encodes it as MessagePack.
    pub fn to_bytes(key: String, value: Option<String>) -> (r: core::result::Result<Vec<u8>, ParseError>)
        ensures
            match r {
                Ok(b) => Self::spec_from_key_value_pair(key@, value.deep_view()) matches Some(e)
                    && b@ == msgpack_record(Self::spec_fields(e)),
                Err(err) => Self::spec_from_key_value_pair(key@, value.deep_view()) is None
                    && err.is_invalid_format("<filetype>|<path>[|<target>[|<family>[|<tagname>]]]"@),
            },
    {
        match Self::from_key_value_pair(key, value) {
            Ok(e) => Ok(encode_record(&e.fields())),
            Err(err) => Err(err),
        }
    }
}

/// One line of the `[Protocols]` section: `<name>[|<expression>]`.
#[derive(Debug)]
pub struct ProtocolEntry {
    pub name: String,
    pub expression: Option<String>,
}

impl View for ProtocolEntry {
    type V = (Seq<char>, Option<Seq<char>>);

    open spec fn view(&self) -> (Seq<char>, Option<Seq<char>>) {
        (self.name@, self.expression.deep_view())
    }
}

impl ProtocolEntry {
    /// The entry that the key and the optional value of a line describe, if any.
    pub open spec fn spec_from_key_value_pair(key: Seq<char>, value: Option<Seq<char>>) -> Option<(Seq<char>, Option<Seq<char>>)> {
        two_field_shape(key, true)
    }

    /// The fields of an entry in the order in which they are stored.
    pub open spec fn spec_fields(e: (Seq<char>, Option<Seq<char>>)) -> Seq<Option<Seq<char>>> {
        seq![Some(e.0), e.1]
    }

    /// The entry whose fields, in the order in which they are stored, are `fs`, if they make one.
    pub open spec fn spec_from_fields(fs: Seq<Option<Seq<char>>>) -> Option<(Seq<char>, Option<Seq<char>>)> {
        if fs.len() == 2 && fs[0] is Some {
            Some((fs[0]->0, fs[1]))
        } else {
            None
        }
    }

    /// The text that renders an entry.
    pub open spec fn spec_to_string(e: (Seq<char>, Option<Seq<char>>)) -> Seq<char> {
        e.0 + opt_suffix(" | "@, e.1)
    }

    /// The entry whose fields, in the order in which they are stored, are `fs`, if they make one.
    fn from_fields(fs: &Vec<Option<String>>) -> (r: Option<Self>)
        ensures
            match Self::spec_from_fields(fs.deep_view()) {
                Some(v) => r matches Some(e) && e@ == v,
                None => r is None,
            },
    {
        if fs.len() != 2 {
            return None;
        }
        match (field_at(fs, 0), field_at(fs, 1)) {
            (Some(name), expression) => Some(ProtocolEntry { name, expression }),
            _ => None,
        }
    }

    /// Decodes the record form that `to_bytes` writes: a MessagePack array of
    /// the entry's fields in the order in which they are stored. Other forms
    /// that a serde reader of the entry would also take, such as a map from
    /// field names to values, are not read here.
    pub fn from_record(buf: &[u8]) -> (r: Option<Self>)
        ensures
            match msgpack_decoded(buf@) {
                Some(fs) => match Self::spec_from_fields(fs) {
                    Some(v) => r matches Some(e) && e@ == v,
                    None => r is None,
                },
                None => r is None,
            },
            forall|v: (Seq<char>, Option<Seq<char>>)|
                record_fits(#[trigger] Self::spec_fields(v)) && buf@ == msgpack_record(Self::spec_fields(v))
                    ==> (r matches Some(e) && e@ == v),
    {
        match decode_record(buf) {
            Some(fs) => Self::from_fields(&fs),
            None => None,
        }
    }

    /// The name of the section that holds such entries.
    pub fn section_name() -> (r: &'static str)
        ensures
            r@ == "protocols"@,
    {
        "protocols"
    }

    /// Reads the entry from the key and the optional value of a line.
    pub fn from_key_value_pair(key: String, value: Option<String>) -> (r: core::result::Result<Self, ParseError>)
        ensures
            match r {
                Ok(e) => Self::spec_from_key_value_pair(key@, value.deep_view()) == Some(e@),
                Err(err) => Self::spec_from_key_value_pair(key@, value.deep_view()) is None
                    && err.is_invalid_format("<name>[|<expression>]"@),
            },
    {
        match parse_two_fields(key.as_str(), true) {
            Some((name, expression)) => Ok(ProtocolEntry { name, expression }),
            None => Err(ParseError::InvalidFormat(String::from_str("<name>[|<expression>]"))),
        }
    }

    /// The fields of the entry in the order in which they are stored.
    pub fn fields(&self) -> (r: Vec<Option<String>>)
        ensures
            r.deep_view() == Self::spec_fields(self@),
    {
        let mut r: Vec<Option<String>> = Vec::new();
        r.push(Some(self.name.clone()));
        r.push(self.expression.clone());
        assert(r.deep_view() =~= Self::spec_fields(self@));
        r
    }

    /// The text that renders the entry.
    pub fn to_string(&self) -> (r: String)
        ensures
            r@ == Self::spec_to_string(self@),
    {
        self.name.clone().concat(opt_suffix_string(" | ", &self.expression).as_str())
    }

    /// Reads the entry from a line and encodes it as MessagePack.
    pub fn to_bytes(key: String, value: Option<String>) -> (r: core::result::Result<Vec<u8>, ParseError>)
        ensures
            match r {
                Ok(b) => Self::spec_from_key_value_pair(key@, value.deep_view()) matches Some(e)
                    && b@ == msgpack_record(Self::spec_fields(e)),
                Err(err) => Self::spec_from_key_value_pair(key@, value.deep_view()) is None
                    && err.is_invalid_format("<name>[|<expression>]"@),
            },
    {
        match Self::from_key_value_pair(key, value) {
            Ok(e) => Ok(encode_record(&e.fields())),
            Err(err) => Err(err),
        }
    }
}

/// One line of the `[Ppis]` section: `<name>[|<expression>]`.
#[derive(Debug)]
pub struct PpiEntry {
    pub name: String,
    pub expression: Option<String>,
}

impl View for PpiEntry {
    type V = (Seq<char>, Option<Seq<char>>);

    open spec fn view(&self) -> (Seq<char>, Option<Seq<char>>) {
        (self.name@, self.expression.deep_view())
    }
}

impl PpiEntry {
    /// The entry that the key and the optional value of a line describe, if any.
    pub open spec fn spec_from_key_value_pair(key: Seq<char>, value: Option<Seq<char>>) -> Option<(Seq<char>, Option<Seq<char>>)> {
        two_field_shape(key, true)
    }

    /// The fields of an entry in the order in which they are stored.
    pub open spec fn spec_fields(e: (Seq<char>, Option<Seq<char>>)) -> Seq<Option<Seq<char>>> {
        seq![Some(e.0), e.1]
    }

    /// The entry whose fields, in the order in which they are stored, are `fs`, if they make one.
    pub open spec fn spec_from_fields(fs: Seq<Option<Seq<char>>>) -> Option<(Seq<char>, Option<Seq<char>>)> {
        if fs.len() == 2 && fs[0] is Some {
            Some((fs[0]->0, fs[1]))
        } else {
            None
        }
    }

    /// The text that renders an entry.
    pub open spec fn spec_to_string(e: (Seq<char>, Option<Seq<char>>)) -> Seq<char> {
        e.0 + opt_suffix("|"@, e.1)
    }

    /// The entry whose fields, in the order in which they are stored, are `fs`, if they make one.
    fn from_fields(fs: &Vec<Option<String>>) -> (r: Option<Self>)
        ensures
            match Self::spec_from_fields(fs.deep_view()) {
                Some(v) => r matches Some(e) && e@ == v,
                None => r is None,
            },
    {
        if fs.len() != 2 {
            return None;
        }
        match (field_at(fs, 0), field_at(fs, 1)) {
            (Some(name), expression) => Some(PpiEntry { name, expression }),
            _ => None,
        }
    }

    /// Decodes the record form that `to_bytes` writes: a MessagePack array of
    /// the entry's fields in the order in which they are stored. Other forms
    /// that a serde reader of the entry would also take, such as a map from
    /// field names to values, are not read here.
    pub fn from_record(buf: &[u8]) -> (r: Option<Self>)
        ensures
            match msgpack_decoded(buf@) {
                Some(fs) => match Self::spec_from_fields(fs) {
                    Some(v) => r matches Some(e) && e@ == v,
                    None => r is None,
                },
                None => r is None,
            },
            forall|v: (Seq<char>, Option<Seq<char>>)|
                record_fits(#[trigger] Self::spec_fields(v)) && buf@ == msgpack_record(Self::spec_fields(v))
                    ==> (r matches Some(e) && e@ == v),
    {
        match decode_record(buf) {
            Some(fs) => Self::from_fields(&fs),
            None => None,
        }
    }

    /// The name of the section that holds such entries.
    pub fn section_name() -> (r: &'static str)
        ensures
            r@ == "ppis"@,
    {
        "ppis"
    }

    /// Reads the entry from the key and the optional value of a line.
    pub fn from_key_value_pair(key: String, value: Option<String>) -> (r: core::result::Result<Self, ParseError>)
        ensures
            match r {
                Ok(e) => Self::spec_from_key_value_pair(key@, value.deep_view()) == Some(e@),
                Err(err) => Self::spec_from_key_value_pair(key@, value.deep_view()) is None
                    && err.is_invalid_format("<name>[|<expression>]"@),
            },
    {
        match parse_two_fields(key.as_str(), true) {
            Some((name, expression)) => Ok(PpiEntry { name, expression }),
            None => Err(ParseError::InvalidFormat(String::from_str("<name>[|<expression>]"))),
        }
    }

    /// The fields of the entry in the order in which they are stored.
    pub fn fields(&self) -> (r: Vec<Option<String>>)
        ensures
            r.deep_view() == Self::spec_fields(self@),
    {
        let mut r: Vec<Option<String>> = Vec::new();
        r.push(Some(self.name.clone()));
        r.push(self.expression.clone());
        assert(r.deep_view() =~= Self::spec_fields(self@));
        r
    }

    /// The text that renders the entry.
    pub fn to_string(&self) -> (r: String)
        ensures
            r@ == Self::spec_to_string(self@),
    {
        self.name.clone().concat(opt_suffix_string("|", &self.expression).as_str())
    }

    /// Reads the entry from a line and encodes it as MessagePack.
    pub fn to_bytes(key: String, value: Option<String>) -> (r: core::result::Result<Vec<u8>, ParseError>)
        ensures
            match r {
                Ok(b) => Self::spec_from_key_value_pair(key@, value.deep_view()) matches Some(e)
                    && b@ == msgpack_record(Self::spec_fields(e)),
                Err(err) => Self::spec_from_key_value_pair(key@, value.deep_view()) is None
                    && err.is_invalid_format("<name>[|<expression>]"@),
            },
    {
        match Self::from_key_value_pair(key, value) {
            Ok(e) => Ok(encode_record(&e.fields())),
            Err(err) => Err(err),
        }
    }
}

/// One line of the `[Guids]` section: `<name>[|<expression>]`.
#[derive(Debug)]
pub struct GuidEntry {
    pub name: String,
    pub expression: Option<String>,
}

impl View for GuidEntry {
    type V = (Seq<char>, Option<Seq<char>>);

    open spec fn view(&self) -> (Seq<char>, Option<Seq<char>>) {
        (self.name@, self.expression.deep_view())
    }
}

impl GuidEntry {
    /// The entry that the key and the optional value of a line describe, if any.
    pub open spec fn spec_from_key_value_pair(key: Seq<char>, value: Option<Seq<char>>) -> Option<(Seq<char>, Option<Seq<char>>)> {
        two_field_shape(key, true)
    }

    /// The fields of an entry in the order in which they are stored.
    pub open spec fn spec_fields(e: (Seq<char>, Option<Seq<char>>)) -> Seq<Option<Seq<char>>> {
        seq![Some(e.0), e.1]
    }

    /// The entry whose fields, in the order in which they are stored, are `fs`, if they make one.
    pub open spec fn spec_from_fields(fs: Seq<Option<Seq<char>>>) -> Option<(Seq<char>, Option<Seq<char>>)> {
        if fs.len() == 2 && fs[0] is Some {
            Some((fs[0]->0, fs[1]))
        } else {
            None
        }
    }

    /// The text that renders an entry.
    pub open spec fn spec_to_string(e: (Seq<char>, Option<Seq<char>>)) -> Seq<char> {
        e.0 + opt_suffix("|"@, e.1)
    }

    /// The entry whose fields, in the order in which they are stored, are `fs`, if they make one.
    fn from_fields(fs: &Vec<Option<String>>) -> (r: Option<Self>)
        ensures
            match Self::spec_from_fields(fs.deep_view()) {
                Some(v) => r matches Some(e) && e@ == v,
                None => r is None,
            },
    {
        if fs.len() != 2 {
            return None;
        }
        match (field_at(fs, 0), field_at(fs, 1)) {
            (Some(name), expression) => Some(GuidEntry { name, expression }),
            _ => None,
        }
    }

    /// Decodes the record form that `to_bytes` writes: a MessagePack array of
    /// the entry's fields in the order in which they are stored. Other forms
    /// that a serde reader of the entry would also take, such as a map from
    /// field names to values, are not read here.
    pub fn from_record(buf: &[u8]) -> (r: Option<Self>)
        ensures
            match msgpack_decoded(buf@) {
                Some(fs) => match Self::spec_from_fields(fs) {
                    Some(v) => r matches Some(e) && e@ == v,
                    None => r is None,
                },
                None => r is None,
            },
            forall|v: (Seq<char>, Option<Seq<char>>)|
                record_fits(#[trigger] Self::spec_fields(v)) && buf@ == msgpack_record(Self::spec_fields(v))
                    ==> (r matches Some(e) && e@ == v),
    {
        match decode_record(buf) {
            Some(fs) => Self::from_fields(&fs),
            None => None,
        }
    }

    /// The name of the section that holds such entries.
    pub fn section_name() -> (r: &'static str)
        ensures
            r@ == "guids"@,
    {
        "guids"
    }

    /// Reads the entry from the key and the optional value of a line.
    pub fn from_key_value_pair(key: String, value: Option<String>) -> (r: core::result::Result<Self, ParseError>)
        ensures
            match r {
                Ok(e) => Self::spec_from_key_value_pair(key@, value.deep_view()) == Some(e@),
                Err(err) => Self::spec_from_key_value_pair(key@, value.deep_view()) is None
                    && err.is_invalid_format("<name>[|<expression>]"@),
            },
    {
        match parse_two_fields(key.as_str(), true) {
            Some((name, expression)) => Ok(GuidEntry { name, expression }),
            None => Err(ParseError::InvalidFormat(String::from_str("<name>[|<expression>]"))),
        }
    }

    /// The fields of the entry in the order in which they are stored.
    pub fn fields(&self) -> (r: Vec<Option<String>>)
        ensures
            r.deep_view() == Self::spec_fields(self@),
    {
        let mut r: Vec<Option<String>> = Vec::new();
        r.push(Some(self.name.clone()));
        r.push(self.expression.clone());
        assert(r.deep_view() =~= Self::spec_fields(self@));
        r
    }

    /// The text that renders the entry.
    pub fn to_string(&self) -> (r: String)
        ensures
            r@ == Self::spec_to_string(self@),
    {
        self.name.clone().concat(opt_suffix_string("|", &self.expression).as_str())
    }

    /// Reads the entry from a line and encodes it as MessagePack.
    pub fn to_bytes(key: String, value: Option<String>) -> (r: core::result::Result<Vec<u8>, ParseError>)
        ensures
            match r {
                Ok(b) => Self::spec_from_key_value_pair(key@, value.deep_view()) matches Some(e)
                    && b@ == msgpack_record(Self::spec_fields(e)),
                Err(err) => Self::spec_from_key_value_pair(key@, value.deep_view()) is None
                    && err.is_invalid_format("<name>[|<expression>]"@),
            },
    {
        match Self::from_key_value_pair(key, value) {
            Ok(e) => Ok(encode_record(&e.fields())),
            Err(err) => Err(err),
        }
    }
}

/// One line of the `[LibraryClasses]` section: `<name>[|<expression>]`.
#[derive(Debug)]
pub struct LibraryClassEntry {
    pub name: String,
    pub expression: Option<String>,
}

impl View for LibraryClassEntry {
    type V = (Seq<char>, Option<Seq<char>>);

    open spec fn view(&self) -> (Seq<char>, Option<Seq<char>>) {
        (self.name@, self.expression.deep_view())
    }
}

impl LibraryClassEntry {
    /// The entry that the key and the optional value of a line describe, if any.
    pub open spec fn spec_from_key_value_pair(key: Seq<char>, value: Option<Seq<char>>) -> Option<(Seq<char>, Option<Seq<char>>)> {
        two_field_shape(key, true)
    }

    /// The fields of an entry in the order in which they are stored.
    pub open spec fn spec_fields(e: (Seq<char>, Option<Seq<char>>)) -> Seq<Option<Seq<char>>> {
        seq![Some(e.0), e.1]
    }

    /// The entry whose fields, in the order in which they are stored, are `fs`, if they make one.
    pub open spec fn spec_from_fields(fs: Seq<Option<Seq<char>>>) -> Option<(Seq<char>, Option<Seq<char>>)> {
        if fs.len() == 2 && fs[0] is Some {
            Some((fs[0]->0, fs[1]))
        } else {
            None
        }
    }

    /// The text that renders an entry.
    pub open spec fn spec_to_string(e: (Seq<char>, Option<Seq<char>>)) -> Seq<char> {
        e.0 + opt_suffix("|"@, e.1)
    }

    /// The entry whose fields, in the order in which they are stored, are `fs`, if they make one.
    fn from_fields(fs: &Vec<Option<String>>) -> (r: Option<Self>)
        ensures
            match Self::spec_from_fields(fs.deep_view()) {
                Some(v) => r matches Some(e) && e@ == v,
                None => r is None,
            },
    {
        if fs.len() != 2 {
            return None;
        }
        match (field_at(fs, 0), field_at(fs, 1)) {
            (Some(name), expression) => Some(LibraryClassEntry { name, expression }),
            _ => None,
        }
    }

    /// Decodes the record form that `to_bytes` writes: a MessagePack array of
    /// the entry's fields in the order in which they are stored. Other forms
    /// that a serde reader of the entry would also take, such as a map from
    /// field names to values, are not read here.
    pub fn from_record(buf: &[u8]) -> (r: Option<Self>)
        ensures
            match msgpack_decoded(buf@) {
                Some(fs) => match Self::spec_from_fields(fs) {
                    Some(v) => r matches Some(e) && e@ == v,
                    None => r is None,
                },
                None => r is None,
            },
            forall|v: (Seq<char>, Option<Seq<char>>)|
                record_fits(#[trigger] Self::spec_fields(v)) && buf@ == msgpack_record(Self::spec_fields(v))
                    ==> (r matches Some(e) && e@ == v),
    {
        match decode_record(buf) {
            Some(fs) => Self::from_fields(&fs),
            None => None,
        }
    }

    /// The name of the section that holds such entries.
    pub fn section_name() -> (r: &'static str)
        ensures
            r@ == "libraryclasses"@,
    {
        "libraryclasses"
    }

    /// Reads the entry from the key and the optional value of a line.
    pub fn from_key_value_pair(key: String, value: Option<String>) -> (r: core::result::Result<Self, ParseError>)
        ensures
            match r {
                Ok(e) => Self::spec_from_key_value_pair(key@, value.deep_view()) == Some(e@),
                Err(err) => Self::spec_from_key_value_pair(key@, value.deep_view()) is None
                    && err.is_invalid_format("<name>[|<expression>]"@),
            },
    {
        match parse_two_fields(key.as_str(), true) {
            Some((name, expression)) => Ok(LibraryClassEntry { name, expression }),
            None => Err(ParseError::InvalidFormat(String::from_str("<name>[|<expression>]"))),
        }
    }

    /// The fields of the entry in the order in which they are stored.
    pub fn fields(&self) -> (r: Vec<Option<String>>)
        ensures
            r.deep_view() == Self::spec_fields(self@),
    {
        let mut r: Vec<Option<String>> = Vec::new();
        r.push(Some(self.name.clone()));
        r.push(self.expression.clone());
        assert(r.deep_view() =~= Self::spec_fields(self@));
        r
    }

    /// The text that renders the entry.
    pub fn to_string(&self) -> (r: String)
        ensures
            r@ == Self::spec_to_string(self@),
    {
        self.name.clone().concat(opt_suffix_string("|", &self.expression).as_str())
    }

    /// Reads the entry from a line and encodes it as MessagePack.
    pub fn to_bytes(key: String, value: Option<String>) -> (r: core::result::Result<Vec<u8>, ParseError>)
        ensures
            match r {
                Ok(b) => Self::spec_from_key_value_pair(key@, value.deep_view()) matches Some(e)
                    && b@ == msgpack_record(Self::spec_fields(e)),
                Err(err) => Self::spec_from_key_value_pair(key@, value.deep_view()) is None
                    && err.is_invalid_format("<name>[|<expression>]"@),
            },
    {
        match Self::from_key_value_pair(key, value) {
            Ok(e) => Ok(encode_record(&e.fields())),
            Err(err) => Err(err),
        }
    }
}

/// One line of the `[Packages]` section: the path of a package declaration file.
#[derive(Debug)]
pub struct PackageEntry {
    pub name: String,
}

impl View for PackageEntry {
    type V = Seq<char>;

    open spec fn view(&self) -> Seq<char> {
        self.name@
    }
}

impl PackageEntry {
    /// The entry that the key and the optional value of a line describe, if any.
    pub open spec fn spec_from_key_value_pair(key: Seq<char>, value: Option<Seq<char>>) -> Option<Seq<char>> {
        Some(trim(key))
    }

    /// The fields of an entry in the order in which they are stored.
    pub open spec fn spec_fields(e: Seq<char>) -> Seq<Option<Seq<char>>> {
        seq![Some(e)]
    }

    /// The entry whose fields, in the order in which they are stored, are `fs`, if they make one.
    pub open spec fn spec_from_fields(fs: Seq<Option<Seq<char>>>) -> Option<Seq<char>> {
        if fs.len() == 1 && fs[0] is Some {
            Some(fs[0]->0)
        } else {
            None
        }
    }

    /// The text that renders an entry.
    pub open spec fn spec_to_string(e: Seq<char>) -> Seq<char> {
        e
    }

    /// The entry whose fields, in the order in which they are stored, are `fs`, if they make one.
    fn from_fields(fs: &Vec<Option<String>>) -> (r: Option<Self>)
        ensures
            match Self::spec_from_fields(fs.deep_view()) {
                Some(v) => r matches Some(e) && e@ == v,
                None => r is None,
            },
    {
        if fs.len() != 1 {
            return None;
        }
        match field_at(fs, 0) {
            Some(name) => Some(PackageEntry { name }),
            _ => None,
        }
    }

    /// Decodes the record form that `to_bytes` writes: a MessagePack array of
    /// the entry's fields in the order in which they are stored. Other forms
    /// that a serde reader of the entry would also take, such as a map from
    /// field names to values, are not read here.
    pub fn from_record(buf: &[u8]) -> (r: Option<Self>)
        ensures
            match msgpack_decoded(buf@) {
                Some(fs) => match Self::spec_from_fields(fs) {
                    Some(v) => r matches Some(e) && e@ == v,
                    None => r is None,
                },
                None => r is None,
            },
            forall|v: Seq<char>|
                record_fits(#[trigger] Self::spec_fields(v)) && buf@ == msgpack_record(Self::spec_fields(v))
                    ==> (r matches Some(e) && e@ == v),
    {
        match decode_record(buf) {
            Some(fs) => Self::from_fields(&fs),
            None => None,
        }
    }

    /// The name of the section that holds such entries.
    pub fn section_name() -> (r: &'static str)
        ensures
            r@ == "packages"@,
    {
        "packages"
    }

    /// Reads the entry from the key and the optional value of a line.
    pub fn from_key_value_pair(key: String, value: Option<String>) -> (r: core::result::Result<Self, ParseError>)
        ensures
            r matches Ok(e) && Self::spec_from_key_value_pair(key@, value.deep_view()) == Some(e@),
    {
        Ok(PackageEntry { name: trim_str(key.as_str()) })
    }

    /// The fields of the entry in the order in which they are stored.
    pub fn fields(&self) -> (r: Vec<Option<String>>)
        ensures
            r.deep_view() == Self::spec_fields(self@),
    {
        let mut r: Vec<Option<String>> = Vec::new();
        r.push(Some(self.name.clone()));
        assert(r.deep_view() =~= Self::spec_fields(self@));
        r
    }

    /// The text that renders the entry.
    pub fn to_string(&self) -> (r: String)
        ensures
            r@ == Self::spec_to_string(self@),
    {
        self.name.clone()
    }

    /// Reads the entry from a line and encodes it as MessagePack.
    pub fn to_bytes(key: String, value: Option<String>) -> (r: core::result::Result<Vec<u8>, ParseError>)
        ensures
            r matches Ok(b) && b@ == msgpack_record(Self::spec_fields(Self::spec_from_key_value_pair(key@, value.deep_view())->0)),
    {
        match Self::from_key_value_pair(key, value) {
            Ok(e) => Ok(encode_record(&e.fields())),
            Err(err) => Err(err),
        }
    }
}

/// One line of the `[FeaturePcd]` section: `<token_space>.<name>[|<value>][|<expression>]`.
#[derive(Debug)]
pub struct FeaturePcdEntry {
    pub token_space: String,
    pub name: String,
    pub value: Option<String>,
    pub expression: Option<String>,
}

impl View for FeaturePcdEntry {
    type V = (Seq<char>, Seq<char>, Option<Seq<char>>, Option<Seq<char>>);

    open spec fn view(&self) -> (Seq<char>, Seq<char>, Option<Seq<char>>, Option<Seq<char>>) {
        (self.token_space@, self.name@, self.value.deep_view(), self.expression.deep_view())
    }
}

impl FeaturePcdEntry {
    /// The entry that the key and the optional value of a line describe, if any.
    pub open spec fn spec_from_key_value_pair(key: Seq<char>, value: Option<Seq<char>>) -> Option<(Seq<char>, Seq<char>, Option<Seq<char>>, Option<Seq<char>>)> {
        pcd_shape(key, true)
    }

    /// The fields of an entry in the order in which they are stored.
    pub open spec fn spec_fields(e: (Seq<char>, Seq<char>, Option<Seq<char>>, Option<Seq<char>>)) -> Seq<Option<Seq<char>>> {
        seq![Some(e.0), Some(e.1), e.2, e.3]
    }

    /// The entry whose fields, in the order in which they are stored, are `fs`, if they make one.
    pub open spec fn spec_from_fields(fs: Seq<Option<Seq<char>>>) -> Option<(Seq<char>, Seq<char>, Option<Seq<char>>, Option<Seq<char>>)> {
        if fs.len() == 4 && fs[0] is Some && fs[1] is Some {
            Some((fs[0]->0, fs[1]->0, fs[2], fs[3]))
        } else {
            None
        }
    }

    /// The text that renders an entry.
    pub open spec fn spec_to_string(e: (Seq<char>, Seq<char>, Option<Seq<char>>, Option<Seq<char>>)) -> Seq<char> {
        e.0 + "."@ + e.1 + opt_suffix("|"@, e.2) + opt_suffix("|"@, e.3)
    }

    /// The entry whose fields, in the order in which they are stored, are `fs`, if they make one.
    fn from_fields(fs: &Vec<Option<String>>) -> (r: Option<Self>)
        ensures
            match Self::spec_from_fields(fs.deep_view()) {
                Some(v) => r matches Some(e) && e@ == v,
                None => r is None,
            },
    {
        if fs.len() != 4 {
            return None;
        }
        match (field_at(fs, 0), field_at(fs, 1), field_at(fs, 2), field_at(fs, 3)) {
            (Some(token_space), Some(name), value, expression) => Some(FeaturePcdEntry { token_space, name, value, expression }),
            _ => None,
        }
    }

    /// Decodes the record form that `to_bytes` writes: a MessagePack array of
    /// the entry's fields in the order in which they are stored. Other forms
    /// that a serde reader of the entry would also take, such as a map from
    /// field names to values, are not read here.
    pub fn from_record(buf: &[u8]) -> (r: Option<Self>)
        ensures
            match msgpack_decoded(buf@) {
                Some(fs) => match Self::spec_from_fields(fs) {
                    Some(v) => r matches Some(e) && e@ == v,
                    None => r is None,
                },
                None => r is None,
            },
            forall|v: (Seq<char>, Seq<char>, Option<Seq<char>>, Option<Seq<char>>)|
                record_fits(#[trigger] Self::spec_fields(v)) && buf@ == msgpack_record(Self::spec_fields(v))
                    ==> (r matches Some(e) && e@ == v),
    {
        match decode_record(buf) {
            Some(fs) => Self::from_fields(&fs),
            None => None,
        }
    }

    /// The name of the section that holds such entries.
    pub fn section_name() -> (r: &'static str)
        ensures
            r@ == "featurepcd"@,
    {
        "featurepcd"
    }

    /// Reads the entry from the key and the optional value of a line.
    pub fn from_key_value_pair(key: String, value: Option<String>) -> (r: core::result::Result<Self, ParseError>)
        ensures
            match r {
                Ok(e) => Self::spec_from_key_value_pair(key@, value.deep_view()) == Some(e@),
                Err(err) => Self::spec_from_key_value_pair(key@, value.deep_view()) is None
                    && err.is_invalid_format("<token_space>.<name>[|<value>][|<expression>]"@),
            },
    {
        match parse_pcd(key.as_str(), true) {
            Some((token_space, name, value, expression)) => Ok(
                FeaturePcdEntry { token_space, name, value, expression },
            ),
            None => Err(
                ParseError::InvalidFormat(
                    String::from_str("<token_space>.<name>[|<value>][|<expression>]"),
                ),
            ),
        }
    }

    /// The fields of the entry in the order in which they are stored.
    pub fn fields(&self) -> (r: Vec<Option<String>>)
        ensures
            r.deep_view() == Self::spec_fields(self@),
    {
        let mut r: Vec<Option<String>> = Vec::new();
        r.push(Some(self.token_space.clone()));
        r.push(Some(self.name.clone()));
        r.push(self.value.clone());
        r.push(self.expression.clone());
        assert(r.deep_view() =~= Self::spec_fields(self@));
        r
    }

    /// The text that renders the entry.
    pub fn to_string(&self) -> (r: String)
        ensures
            r@ == Self::spec_to_string(self@),
    {
        self.token_space.clone().concat(".").concat(self.name.as_str()).concat(
            opt_suffix_string("|", &self.value).as_str(),
        ).concat(opt_suffix_string("|", &self.expression).as_str())
    }

    /// Reads the entry from a line and encodes it as MessagePack.
    pub fn to_bytes(key: String, value: Option<String>) -> (r: core::result::Result<Vec<u8>, ParseError>)
        ensures
            match r {
                Ok(b) => Self::spec_from_key_value_pair(key@, value.deep_view()) matches Some(e)
                    && b@ == msgpack_record(Self::spec_fields(e)),
                Err(err) => Self::spec_from_key_value_pair(key@, value.deep_view()) is None
                    && err.is_invalid_format("<token_space>.<name>[|<value>][|<expression>]"@),
            },
    {
        match Self::from_key_value_pair(key, value) {
            Ok(e) => Ok(encode_record(&e.fields())),
            Err(err) => Err(err),
        }
    }
}

/// One line of the `[FixedPcd]` section: `<token_space>.<name>[|<value>][|<expression>]`.
#[derive(Debug)]
pub struct FixedPcdEntry {
    pub token_space: String,
    pub name: String,
    pub value: Option<String>,
    pub expression: Option<String>,
}

impl View for FixedPcdEntry {
    type V = (Seq<char>, Seq<char>, Option<Seq<char>>, Option<Seq<char>>);

    open spec fn view(&self) -> (Seq<char>, Seq<char>, Option<Seq<char>>, Option<Seq<char>>) {
        (self.token_space@, self.name@, self.value.deep_view(), self.expression.deep_view())
    }
}

impl FixedPcdEntry {
    /// The entry that the key and the optional value of a line describe, if any.
    pub open spec fn spec_from_key_value_pair(key: Seq<char>, value: Option<Seq<char>>) -> Option<(Seq<char>, Seq<char>, Option<Seq<char>>, Option<Seq<char>>)> {
        pcd_shape(key, true)
    }

    /// The fields of an entry in the order in which they are stored.
    pub open spec fn spec_fields(e: (Seq<char>, Seq<char>, Option<Seq<char>>, Option<Seq<char>>)) -> Seq<Option<Seq<char>>> {
        seq![Some(e.0), Some(e.1), e.2, e.3]
    }

    /// The entry whose fields, in the order in which they are stored, are `fs`, if they make one.
    pub open spec fn spec_from_fields(fs: Seq<Option<Seq<char>>>) -> Option<(Seq<char>, Seq<char>, Option<Seq<char>>, Option<Seq<char>>)> {
        if fs.len() == 4 && fs[0] is Some && fs[1] is Some {
            Some((fs[0]->0, fs[1]->0, fs[2], fs[3]))
        } else {
            None
        }
    }

    /// The text that renders an entry.
    pub open spec fn spec_to_string(e: (Seq<char>, Seq<char>, Option<Seq<char>>, Option<Seq<char>>)) -> Seq<char> {
        e.0 + "."@ + e.1 + opt_suffix("|"@, e.2) + opt_suffix("|"@, e.3)
    }

    /// The entry whose fields, in the order in which they are stored, are `fs`, if they make one.
    fn from_fields(fs: &Vec<Option<String>>) -> (r: Option<Self>)
        ensures
            match Self::spec_from_fields(fs.deep_view()) {
                Some(v) => r matches Some(e) && e@ == v,
                None => r is None,
            },
    {
        if fs.len() != 4 {
            return None;
        }
        match (field_at(fs, 0), field_at(fs, 1), field_at(fs, 2), field_at(fs, 3)) {
            (Some(token_space), Some(name), value, expression) => Some(FixedPcdEntry { token_space, name, value, expression }),
            _ => None,
        }
    }

    /// Decodes the record form that `to_bytes` writes: a MessagePack array of
    /// the entry's fields in the order in which they are stored. Other forms
    /// that a serde reader of the entry would also take, such as a map from
    /// field names to values, are not read here.
    pub fn from_record(buf: &[u8]) -> (r: Option<Self>)
        ensures
            match msgpack_decoded(buf@) {
                Some(fs) => match Self::spec_from_fields(fs) {
                    Some(v) => r matches Some(e) && e@ == v,
                    None => r is None,
                },
                None => r is None,
            },
            forall|v: (Seq<char>, Seq<char>, Option<Seq<char>>, Option<Seq<char>>)|
                record_fits(#[trigger] Self::spec_fields(v)) && buf@ == msgpack_record(Self::spec_fields(v))
                    ==> (r matches Some(e) && e@ == v),
    {
        match decode_record(buf) {
            Some(fs) => Self::from_fields(&fs),
            None => None,
        }
    }

    /// The name of the section that holds such entries.
    pub fn section_name() -> (r: &'static str)
        ensures
            r@ == "fixedpcd"@,
    {
        "fixedpcd"
    }

    /// Reads the entry from the key and the optional value of a line.
    pub fn from_key_value_pair(key: String, value: Option<String>) -> (r: core::result::Result<Self, ParseError>)
        ensures
            match r {
                Ok(e) => Self::spec_from_key_value_pair(key@, value.deep_view()) == Some(e@),
                Err(err) => Self::spec_from_key_value_pair(key@, value.deep_view()) is None
                    && err.is_invalid_format("<token_space>.<name>[|<value>][|<expression>]"@),
            },
    {
        match parse_pcd(key.as_str(), true) {
            Some((token_space, name, value, expression)) => Ok(
                FixedPcdEntry { token_space, name, value, expression },
            ),
            None => Err(
                ParseError::InvalidFormat(
                    String::from_str("<token_space>.<name>[|<value>][|<expression>]"),
                ),
            ),
        }
    }

    /// The fields of the entry in the order in which they are stored.
    pub fn fields(&self) -> (r: Vec<Option<String>>)
        ensures
            r.deep_view() == Self::spec_fields(self@),
    {
        let mut r: Vec<Option<String>> = Vec::new();
        r.push(Some(self.token_space.clone()));
        r.push(Some(self.name.clone()));
        r.push(self.value.clone());
        r.push(self.expression.clone());
        assert(r.deep_view() =~= Self::spec_fields(self@));
        r
    }

    /// The text that renders the entry.
    pub fn to_string(&self) -> (r: String)
        ensures
            r@ == Self::spec_to_string(self@),
    {
        self.token_space.clone().concat(".").concat(self.name.as_str()).concat(
            opt_suffix_string("|", &self.value).as_str(),
        ).concat(opt_suffix_string("|", &self.expression).as_str())
    }

    /// Reads the entry from a line and encodes it as MessagePack.
    pub fn to_bytes(key: String, value: Option<String>) -> (r: core::result::Result<Vec<u8>, ParseError>)
        ensures
            match r {
                Ok(b) => Self::spec_from_key_value_pair(key@, value.deep_view()) matches Some(e)
                    && b@ == msgpack_record(Self::spec_fields(e)),
                Err(err) => Self::spec_from_key_value_pair(key@, value.deep_view()) is None
                    && err.is_invalid_format("<token_space>.<name>[|<value>][|<expression>]"@),
            },
    {
        match Self::from_key_value_pair(key, value) {
            Ok(e) => Ok(encode_record(&e.fields())),
            Err(err) => Err(err),
        }
    }
}

/// One line of the `[Pcd]` section: `<token_space>.<name>[|<value>][|<expression>]`.
#[derive(Debug)]
pub struct PcdEntry {
    pub token_space: String,
    pub name: String,
    pub value: Option<String>,
    pub expression: Option<String>,
}

impl View for PcdEntry {
    type V = (Seq<char>, Seq<char>, Option<Seq<char>>, Option<Seq<char>>);

    open spec fn view(&self) -> (Seq<char>, Seq<char>, Option<Seq<char>>, Option<Seq<char>>) {
        (self.token_space@, self.name@, self.value.deep_view(), self.expression.deep_view())
    }
}

impl PcdEntry {
    /// The entry that the key and the optional value of a line describe, if any.
    pub open spec fn spec_from_key_value_pair(key: Seq<char>, value: Option<Seq<char>>) -> Option<(Seq<char>, Seq<char>, Option<Seq<char>>, Option<Seq<char>>)> {
        pcd_shape(key, true)
    }

    /// The fields of an entry in the order in which they are stored.
    pub open spec fn spec_fields(e: (Seq<char>, Seq<char>, Option<Seq<char>>, Option<Seq<char>>)) -> Seq<Option<Seq<char>>> {
        seq![Some(e.0), Some(e.1), e.2, e.3]
    }

    /// The entry whose fields, in the order in which they are stored, are `fs`, if they make one.
    pub open spec fn spec_from_fields(fs: Seq<Option<Seq<char>>>) -> Option<(Seq<char>, Seq<char>, Option<Seq<char>>, Option<Seq<char>>)> {
        if fs.len() == 4 && fs[0] is Some && fs[1] is Some {
            Some((fs[0]->0, fs[1]->0, fs[2], fs[3]))
        } else {
            None
        }
    }

    /// The text that renders an entry.
    pub open spec fn spec_to_string(e: (Seq<char>, Seq<char>, Option<Seq<char>>, Option<Seq<char>>)) -> Seq<char> {
        e.0 + "."@ + e.1 + opt_suffix("|"@, e.2) + opt_suffix("|"@, e.3)
    }

    /// The entry whose fields, in the order in which they are stored, are `fs`, if they make one.
    fn from_fields(fs: &Vec<Option<String>>) -> (r: Option<Self>)
        ensures
            match Self::spec_from_fields(fs.deep_view()) {
                Some(v) => r matches Some(e) && e@ == v,
                None => r is None,
            },
    {
        if fs.len() != 4 {
            return None;
        }
        match (field_at(fs, 0), field_at(fs, 1), field_at(fs, 2), field_at(fs, 3)) {
            (Some(token_space), Some(name), value, expression) => Some(PcdEntry { token_space, name, value, expression }),
            _ => None,
        }
    }

    /// Decodes the record form that `to_bytes` writes: a MessagePack array of
    /// the entry's fields in the order in which they are stored. Other forms
    /// that a serde reader of the entry would also take, such as a map from
    /// field names to values, are not read here.
    pub fn from_record(buf: &[u8]) -> (r: Option<Self>)
        ensures
            match msgpack_decoded(buf@) {
                Some(fs) => match Self::spec_from_fields(fs) {
                    Some(v) => r matches Some(e) && e@ == v,
                    None => r is None,
                },
                None => r is None,
            },
            forall|v: (Seq<char>, Seq<char>, Option<Seq<char>>, Option<Seq<char>>)|
                record_fits(#[trigger] Self::spec_fields(v)) && buf@ == msgpack_record(Self::spec_fields(v))
                    ==> (r matches Some(e) && e@ == v),
    {
        match decode_record(buf) {
            Some(fs) => Self::from_fields(&fs),
            None => None,
        }
    }

    /// The name of the section that holds such entries.
    pub fn section_name() -> (r: &'static str)
        ensures
            r@ == "pcd"@,
    {
        "pcd"
    }

    /// Reads the entry from the key and the optional value of a line.
    pub fn from_key_value_pair(key: String, value: Option<String>) -> (r: core::result::Result<Self, ParseError>)
        ensures
            match r {
                Ok(e) => Self::spec_from_key_value_pair(key@, value.deep_view()) == Some(e@),
                Err(err) => Self::spec_from_key_value_pair(key@, value.deep_view()) is None
                    && err.is_invalid_format("<token_space>.<name>[|<value>][|<expression>]"@),
            },
    {
        match parse_pcd(key.as_str(), true) {
            Some((token_space, name, value, expression)) => Ok(
                PcdEntry { token_space, name, value, expression },
            ),
            None => Err(
                ParseError::InvalidFormat(
                    String::from_str("<token_space>.<name>[|<value>][|<expression>]"),
                ),
            ),
        }
    }

    /// The fields of the entry in the order in which they are stored.
    pub fn fields(&self) -> (r: Vec<Option<String>>)
        ensures
            r.deep_view() == Self::spec_fields(self@),
    {
        let mut r: Vec<Option<String>> = Vec::new();
        r.push(Some(self.token_space.clone()));
        r.push(Some(self.name.clone()));
        r.push(self.value.clone());
        r.push(self.expression.clone());
        assert(r.deep_view() =~= Self::spec_fields(self@));
        r
    }

    /// The text that renders the entry.
    pub fn to_string(&self) -> (r: String)
        ensures
            r@ == Self::spec_to_string(self@),
    {
        self.token_space.clone().concat(".").concat(self.name.as_str()).concat(
            opt_suffix_string("|", &self.value).as_str(),
        ).concat(opt_suffix_string("|", &self.expression).as_str())
    }

    /// Reads the entry from a line and encodes it as MessagePack.
    pub fn to_bytes(key: String, value: Option<String>) -> (r: core::result::Result<Vec<u8>, ParseError>)
        ensures
            match r {
                Ok(b) => Self::spec_from_key_value_pair(key@, value.deep_view()) matches Some(e)
                    && b@ == msgpack_record(Self::spec_fields(e)),
                Err(err) => Self::spec_from_key_value_pair(key@, value.deep_view()) is None
                    && err.is_invalid_format("<token_space>.<name>[|<value>][|<expression>]"@),
            },
    {
        match Self::from_key_value_pair(key, value) {
            Ok(e) => Ok(encode_record(&e.fields())),
            Err(err) => Err(err),
        }
    }
}

/// One line of the `[PcdEx]` section: `<token_space>.<name>[|<value>][|<expression>]`.
#[derive(Debug)]
pub struct PcdExEntry {
    pub token_space: String,
    pub name: String,
    pub value: Option<String>,
    pub expression: Option<String>,
}

impl View for PcdExEntry {
    type V = (Seq<char>, Seq<char>, Option<Seq<char>>, Option<Seq<char>>);

    open spec fn view(&self) -> (Seq<char>, Seq<char>, Option<Seq<char>>, Option<Seq<char>>) {
        (self.token_space@, self.name@, self.value.deep_view(), self.expression.deep_view())
    }
}

impl PcdExEntry {
    /// The entry that the key and the optional value of a line describe, if any.
    pub open spec fn spec_from_key_value_pair(key: Seq<char>, value: Option<Seq<char>>) -> Option<(Seq<char>, Seq<char>, Option<Seq<char>>, Option<Seq<char>>)> {
        pcd_shape(key, true)
    }

    /// The fields of an entry in the order in which they are stored.
    pub open spec fn spec_fields(e: (Seq<char>, Seq<char>, Option<Seq<char>>, Option<Seq<char>>)) -> Seq<Option<Seq<char>>> {
        seq![Some(e.0), Some(e.1), e.2, e.3]
    }

    /// The entry whose fields, in the order in which they are stored, are `fs`, if they make one.
    pub open spec fn spec_from_fields(fs: Seq<Option<Seq<char>>>) -> Option<(Seq<char>, Seq<char>, Option<Seq<char>>, Option<Seq<char>>)> {
        if fs.len() == 4 && fs[0] is Some && fs[1] is Some {
            Some((fs[0]->0, fs[1]->0, fs[2], fs[3]))
        } else {
            None
        }
    }

    /// The text that renders an entry.
    pub open spec fn spec_to_string(e: (Seq<char>, Seq<char>, Option<Seq<char>>, Option<Seq<char>>)) -> Seq<char> {
        e.0 + "."@ + e.1 + opt_suffix("|"@, e.2) + opt_suffix("|"@, e.3)
    }

    /// The entry whose fields, in the order in which they are stored, are `fs`, if they make one.
    fn from_fields(fs: &Vec<Option<String>>) -> (r: Option<Self>)
        ensures
            match Self::spec_from_fields(fs.deep_view()) {
                Some(v) => r matches Some(e) && e@ == v,
                None => r is None,
            },
    {
        if fs.len() != 4 {
            return None;
        }
        match (field_at(fs, 0), field_at(fs, 1), field_at(fs, 2), field_at(fs, 3)) {
            (Some(token_space), Some(name), value, expression) => Some(PcdExEntry { token_space, name, value, expression }),
            _ => None,
        }
    }

    /// Decodes the record form that `to_bytes` writes: a MessagePack array of
    /// the entry's fields in the order in which they are stored. Other forms
    /// that a serde reader of the entry would also take, such as a map from
    /// field names to values, are not read here.
    pub fn from_record(buf: &[u8]) -> (r: Option<Self>)
        ensures
            match msgpack_decoded(buf@) {
                Some(fs) => match Self::spec_from_fields(fs) {
                    Some(v) => r matches Some(e) && e@ == v,
                    None => r is None,
                },
                None => r is None,
            },
            forall|v: (Seq<char>, Seq<char>, Option<Seq<char>>, Option<Seq<char>>)|
                record_fits(#[trigger] Self::spec_fields(v)) && buf@ == msgpack_record(Self::spec_fields(v))
                    ==> (r matches Some(e) && e@ == v),
    {
        match decode_record(buf) {
            Some(fs) => Self::from_fields(&fs),
            None => None,
        }
    }

    /// The name of the section that holds such entries.
    pub fn section_name() -> (r: &'static str)
        ensures
            r@ == "pcdex"@,
    {
        "pcdex"
    }

    /// Reads the entry from the key and the optional value of a line.
    pub fn from_key_value_pair(key: String, value: Option<String>) -> (r: core::result::Result<Self, ParseError>)
        ensures
            match r {
                Ok(e) => Self::spec_from_key_value_pair(key@, value.deep_view()) == Some(e@),
                Err(err) => Self::spec_from_key_value_pair(key@, value.deep_view()) is None
                    && err.is_invalid_format("<token_space>.<name>[|<value>][|<expression>]"@),
            },
    {
        match parse_pcd(key.as_str(), true) {
            Some((token_space, name, value, expression)) => Ok(
                PcdExEntry { token_space, name, value, expression },
            ),
            None => Err(
                ParseError::InvalidFormat(
                    String::from_str("<token_space>.<name>[|<value>][|<expression>]"),
                ),
            ),
        }
    }

    /// The fields of the entry in the order in which they are stored.
    pub fn fields(&self) -> (r: Vec<Option<String>>)
        ensures
            r.deep_view() == Self::spec_fields(self@),
    {
        let mut r: Vec<Option<String>> = Vec::new();
        r.push(Some(self.token_space.clone()));
        r.push(Some(self.name.clone()));
        r.push(self.value.clone());
        r.push(self.expression.clone());
        assert(r.deep_view() =~= Self::spec_fields(self@));
        r
    }

    /// The text that renders the entry.
    pub fn to_string(&self) -> (r: String)
        ensures
            r@ == Self::spec_to_string(self@),
    {
        self.token_space.clone().concat(".").concat(self.name.as_str()).concat(
            opt_suffix_string("|", &self.value).as_str(),
        ).concat(opt_suffix_string("|", &self.expression).as_str())
    }

    /// Reads the entry from a line and encodes it as MessagePack.
    pub fn to_bytes(key: String, value: Option<String>) -> (r: core::result::Result<Vec<u8>, ParseError>)
        ensures
            match r {
                Ok(b) => Self::spec_from_key_value_pair(key@, value.deep_view()) matches Some(e)
                    && b@ == msgpack_record(Self::spec_fields(e)),
                Err(err) => Self::spec_from_key_value_pair(key@, value.deep_view()) is None
                    && err.is_invalid_format("<token_space>.<name>[|<value>][|<expression>]"@),
            },
    {
        match Self::from_key_value_pair(key, value) {
            Ok(e) => Ok(encode_record(&e.fields())),
            Err(err) => Err(err),
        }
    }
}

/// One line of the `[PatchPcd]` section: `<token_space>.<name>|<value>|<hex>`.
#[derive(Debug)]
pub struct PatchPcdEntry {
    pub token_space: String,
    pub name: String,
    pub value: String,
    pub hex: String,
}

impl View for PatchPcdEntry {
    type V = (Seq<char>, Seq<char>, Seq<char>, Seq<char>);

    open spec fn view(&self) -> (Seq<char>, Seq<char>, Seq<char>, Seq<char>) {
        (self.token_space@, self.name@, self.value@, self.hex@)
    }
}

impl PatchPcdEntry {
    /// The entry that the key and the optional value of a line describe, if any.
    pub open spec fn spec_from_key_value_pair(key: Seq<char>, value: Option<Seq<char>>) -> Option<(Seq<char>, Seq<char>, Seq<char>, Seq<char>)> {
        patch_pcd_shape(key)
    }

    /// The fields of an entry in the order in which they are stored.
    pub open spec fn spec_fields(e: (Seq<char>, Seq<char>, Seq<char>, Seq<char>)) -> Seq<Option<Seq<char>>> {
        seq![Some(e.0), Some(e.1), Some(e.2), Some(e.3)]
    }

    /// The entry whose fields, in the order in which they are stored, are `fs`, if they make one.
    pub open spec fn spec_from_fields(fs: Seq<Option<Seq<char>>>) -> Option<(Seq<char>, Seq<char>, Seq<char>, Seq<char>)> {
        if fs.len() == 4 && fs[0] is Some && fs[1] is Some && fs[2] is Some && fs[3] is Some {
            Some((fs[0]->0, fs[1]->0, fs[2]->0, fs[3]->0))
        } else {
            None
        }
    }

    /// The text that renders an entry.
    pub open spec fn spec_to_string(e: (Seq<char>, Seq<char>, Seq<char>, Seq<char>)) -> Seq<char> {
        e.0 + "."@ + e.1 + "|"@ + e.2 + "|"@ + e.3
    }

    /// The entry whose fields, in the order in which they are stored, are `fs`, if they make one.
    fn from_fields(fs: &Vec<Option<String>>) -> (r: Option<Self>)
        ensures
            match Self::spec_from_fields(fs.deep_view()) {
                Some(v) => r matches Some(e) && e@ == v,
                None => r is None,
            },
    {
        if fs.len() != 4 {
            return None;
        }
        match (field_at(fs, 0), field_at(fs, 1), field_at(fs, 2), field_at(fs, 3)) {
            (Some(token_space), Some(name), Some(value), Some(hex)) => Some(PatchPcdEntry { token_space, name, value, hex }),
            _ => None,
        }
    }

    /// Decodes the record form that `to_bytes` writes: a MessagePack array of
    /// the entry's fields in the order in which they are stored. Other forms
    /// that a serde reader of the entry would also take, such as a map from
    /// field names to values, are not read here.
    pub fn from_record(buf: &[u8]) -> (r: Option<Self>)
        ensures
            match msgpack_decoded(buf@) {
                Some(fs) => match Self::spec_from_fields(fs) {
                    Some(v) => r matches Some(e) && e@ == v,
                    None => r is None,
                },
                None => r is None,
            },
            forall|v: (Seq<char>, Seq<char>, Seq<char>, Seq<char>)|
                record_fits(#[trigger] Self::spec_fields(v)) && buf@ == msgpack_record(Self::spec_fields(v))
                    ==> (r matches Some(e) && e@ == v),
    {
        match decode_record(buf) {
            Some(fs) => Self::from_fields(&fs),
            None => None,
        }
    }

    /// The name of the section that holds such entries.
    pub fn section_name() -> (r: &'static str)
        ensures
            r@ == "patchpcd"@,
    {
        "patchpcd"
    }

    /// Reads the entry from the key and the optional value of a line.
    pub fn from_key_value_pair(key: String, value: Option<String>) -> (r: core::result::Result<Self, ParseError>)
        ensures
            match r {
                Ok(e) => Self::spec_from_key_value_pair(key@, value.deep_view()) == Some(e@),
                Err(err) => Self::spec_from_key_value_pair(key@, value.deep_view()) is None
                    && err.is_invalid_format("PatchPcdEntry must be in format <token_space>.<name>|<value>|<hex>"@),
            },
    {
        match parse_patch_pcd(key.as_str()) {
            Some((token_space, name, value, hex)) => Ok(PatchPcdEntry { token_space, name, value, hex }),
            None => Err(
                ParseError::InvalidFormat(
                    String::from_str(
                        "PatchPcdEntry must be in format <token_space>.<name>|<value>|<hex>",
                    ),
                ),
            ),
        }
    }

    /// The fields of the entry in the order in which they are stored.
    pub fn fields(&self) -> (r: Vec<Option<String>>)
        ensures
            r.deep_view() == Self::spec_fields(self@),
    {
        let mut r: Vec<Option<String>> = Vec::new();
        r.push(Some(self.token_space.clone()));
        r.push(Some(self.name.clone()));
        r.push(Some(self.value.clone()));
        r.push(Some(self.hex.clone()));
        assert(r.deep_view() =~= Self::spec_fields(self@));
        r
    }

    /// The text that renders the entry.
    pub fn to_string(&self) -> (r: String)
        ensures
            r@ == Self::spec_to_string(self@),
    {
        self.token_space.clone().concat(".").concat(self.name.as_str()).concat("|").concat(
            self.value.as_str(),
        ).concat("|").concat(self.hex.as_str())
    }

    /// Reads the entry from a line and encodes it as MessagePack.
    pub fn to_bytes(key: String, value: Option<String>) -> (r: core::result::Result<Vec<u8>, ParseError>)
        ensures
            match r {
                Ok(b) => Self::spec_from_key_value_pair(key@, value.deep_view()) matches Some(e)
                    && b@ == msgpack_record(Self::spec_fields(e)),
                Err(err) => Self::spec_from_key_value_pair(key@, value.deep_view()) is None
                    && err.is_invalid_format("PatchPcdEntry must be in format <token_space>.<name>|<value>|<hex>"@),
            },
    {
        match Self::from_key_value_pair(key, value) {
            Ok(e) => Ok(encode_record(&e.fields())),
            Err(err) => Err(err),
        }
    }
}

/// One line of the `[Depex]` section, kept whole.
#[derive(Debug)]
pub struct DepexEntry {
    value: String,
}

impl View for DepexEntry {
    type V = Seq<char>;

    closed spec fn view(&self) -> Seq<char> {
        self.value@
    }
}

impl DepexEntry {
    /// The entry that the key and the optional value of a line describe, if any.
    pub open spec fn spec_from_key_value_pair(key: Seq<char>, value: Option<Seq<char>>) -> Option<Seq<char>> {
        Some(trim(key))
    }

    /// The fields of an entry in the order in which they are stored.
    pub open spec fn spec_fields(e: Seq<char>) -> Seq<Option<Seq<char>>> {
        seq![Some(e)]
    }

    /// The entry whose fields, in the order in which they are stored, are `fs`, if they make one.
    pub open spec fn spec_from_fields(fs: Seq<Option<Seq<char>>>) -> Option<Seq<char>> {
        if fs.len() == 1 && fs[0] is Some {
            Some(fs[0]->0)
        } else {
            None
        }
    }

    /// The text that renders an entry.
    pub open spec fn spec_to_string(e: Seq<char>) -> Seq<char> {
        e
    }

    /// The entry whose fields, in the order in which they are stored, are `fs`, if they make one.
    fn from_fields(fs: &Vec<Option<String>>) -> (r: Option<Self>)
        ensures
            match Self::spec_from_fields(fs.deep_view()) {
                Some(v) => r matches Some(e) && e@ == v,
                None => r is None,
            },
    {
        if fs.len() != 1 {
            return None;
        }
        match field_at(fs, 0) {
            Some(value) => Some(DepexEntry { value }),
            _ => None,
        }
    }

    /// Decodes the record form that `to_bytes` writes: a MessagePack array of
    /// the entry's fields in the order in which they are stored. Other forms
    /// that a serde reader of the entry would also take, such as a map from
    /// field names to values, are not read here.
    pub fn from_record(buf: &[u8]) -> (r: Option<Self>)
        ensures
            match msgpack_decoded(buf@) {
                Some(fs) => match Self::spec_from_fields(fs) {
                    Some(v) => r matches Some(e) && e@ == v,
                    None => r is None,
                },
                None => r is None,
            },
            forall|v: Seq<char>|
                record_fits(#[trigger] Self::spec_fields(v)) && buf@ == msgpack_record(Self::spec_fields(v))
                    ==> (r matches Some(e) && e@ == v),
    {
        match decode_record(buf) {
            Some(fs) => Self::from_fields(&fs),
            None => None,
        }
    }

    /// The name of the section that holds such entries.
    pub fn section_name() -> (r: &'static str)
        ensures
            r@ == "depex"@,
    {
        "depex"
    }

    /// Reads the entry from the key and the optional value of a line.
    pub fn from_key_value_pair(key: String, value: Option<String>) -> (r: core::result::Result<Self, ParseError>)
        ensures
            r matches Ok(e) && Self::spec_from_key_value_pair(key@, value.deep_view()) == Some(e@),
    {
        Ok(DepexEntry { value: trim_str(key.as_str()) })
    }

    /// The fields of the entry in the order in which they are stored.
    pub fn fields(&self) -> (r: Vec<Option<String>>)
        ensures
            r.deep_view() == Self::spec_fields(self@),
    {
        let mut r: Vec<Option<String>> = Vec::new();
        r.push(Some(self.value.clone()));
        assert(r.deep_view() =~= Self::spec_fields(self@));
        r
    }

    /// The text that renders the entry.
    pub fn to_string(&self) -> (r: String)
        ensures
            r@ == Self::spec_to_string(self@),
    {
        self.value.clone()
    }

    /// Reads the entry from a line and encodes it as MessagePack.
    pub fn to_bytes(key: String, value: Option<String>) -> (r: core::result::Result<Vec<u8>, ParseError>)
        ensures
            r matches Ok(b) && b@ == msgpack_record(Self::spec_fields(Self::spec_from_key_value_pair(key@, value.deep_view())->0)),
    {
        match Self::from_key_value_pair(key, value) {
            Ok(e) => Ok(encode_record(&e.fields())),
            Err(err) => Err(err),
        }
    }

    /// The text of the line, trimmed.
    pub fn value(&self) -> (r: &String)
        ensures
            r@ == self@,
    {
        &self.value
    }
}

/// One line of the `[UserExtensions]` section, kept whole.
#[derive(Debug)]
pub struct UserExtensionEntry {
    value: String,
}

impl View for UserExtensionEntry {
    type V = Seq<char>;

    closed spec fn view(&self) -> Seq<char> {
        self.value@
    }
}

impl UserExtensionEntry {
    /// The entry that the key and the optional value of a line describe, if any.
    pub open spec fn spec_from_key_value_pair(key: Seq<char>, value: Option<Seq<char>>) -> Option<Seq<char>> {
        Some(trim(key))
    }

    /// The fields of an entry in the order in which they are stored.
    pub open spec fn spec_fields(e: Seq<char>) -> Seq<Option<Seq<char>>> {
        seq![Some(e)]
    }

    /// The entry whose fields, in the order in which they are stored, are `fs`, if they make one.
    pub open spec fn spec_from_fields(fs: Seq<Option<Seq<char>>>) -> Option<Seq<char>> {
        if fs.len() == 1 && fs[0] is Some {
            Some(fs[0]->0)
        } else {
            None
        }
    }

    /// The text that renders an entry.
    pub open spec fn spec_to_string(e: Seq<char>) -> Seq<char> {
        e
    }

    /// The entry whose fields, in the order in which they are stored, are `fs`, if they make one.
    fn from_fields(fs: &Vec<Option<String>>) -> (r: Option<Self>)
        ensures
            match Self::spec_from_fields(fs.deep_view()) {
                Some(v) => r matches Some(e) && e@ == v,
                None => r is None,
            },
    {
        if fs.len() != 1 {
            return None;
        }
        match field_at(fs, 0) {
            Some(value) => Some(UserExtensionEntry { value }),
            _ => None,
        }
    }

    /// Decodes the record form that `to_bytes` writes: a MessagePack array of
    /// the entry's fields in the order in which they are stored. Other forms
    /// that a serde reader of the entry would also take, such as a map from
    /// field names to values, are not read here.
    pub fn from_record(buf: &[u8]) -> (r: Option<Self>)
        ensures
            match msgpack_decoded(buf@) {
                Some(fs) => match Self::spec_from_fields(fs) {
                    Some(v) => r matches Some(e) && e@ == v,
                    None => r is None,
                },
                None => r is None,
            },
            forall|v: Seq<char>|
                record_fits(#[trigger] Self::spec_fields(v)) && buf@ == msgpack_record(Self::spec_fields(v))
                    ==> (r matches Some(e) && e@ == v),
    {
        match decode_record(buf) {
            Some(fs) => Self::from_fields(&fs),
            None => None,
        }
    }

    /// The name of the section that holds such entries.
    pub fn section_name() -> (r: &'static str)
        ensures
            r@ == "userextensions"@,
    {
        "userextensions"
    }

    /// Reads the entry from the key and the optional value of a line.
    pub fn from_key_value_pair(key: String, value: Option<String>) -> (r: core::result::Result<Self, ParseError>)
        ensures
            r matches Ok(e) && Self::spec_from_key_value_pair(key@, value.deep_view()) == Some(e@),
    {
        Ok(UserExtensionEntry { value: trim_str(key.as_str()) })
    }

    /// The fields of the entry in the order in which they are stored.
    pub fn fields(&self) -> (r: Vec<Option<String>>)
        ensures
            r.deep_view() == Self::spec_fields(self@),
    {
        let mut r: Vec<Option<String>> = Vec::new();
        r.push(Some(self.value.clone()));
        assert(r.deep_view() =~= Self::spec_fields(self@));
        r
    }

    /// The text that renders the entry.
    pub fn to_string(&self) -> (r: String)
        ensures
            r@ == Self::spec_to_string(self@),
    {
        self.value.clone()
    }

    /// Reads the entry from a line and encodes it as MessagePack.
    pub fn to_bytes(key: String, value: Option<String>) -> (r: core::result::Result<Vec<u8>, ParseError>)
        ensures
            r matches Ok(b) && b@ == msgpack_record(Self::spec_fields(Self::spec_from_key_value_pair(key@, value.deep_view())->0)),
    {
        match Self::from_key_value_pair(key, value) {
            Ok(e) => Ok(encode_record(&e.fields())),
            Err(err) => Err(err),
        }
    }

    /// The text of the line, trimmed.
    pub fn value(&self) -> (r: &String)
        ensures
            r@ == self@,
    {
        &self.value
    }
}

/// One line of the `[BuildOptions]` section:
/// `[<family>:]<target>_<tagname>_<arch>_<tool_code>_<attribute> = <value>`.
/// The value is kept as written, a leading `=` included.
#[derive(Debug)]
pub struct BuildOptionEntry {
    pub family: Option<String>,
    pub target: String,
    pub tagname: String,
    pub arch: String,
    pub tool_code: String,
    pub attribute: String,
    pub value: String,
}

impl View for BuildOptionEntry {
    type V = (Option<Seq<char>>, Seq<char>, Seq<char>, Seq<char>, Seq<char>, Seq<char>, Seq<char>);

    open spec fn view(&self) -> (Option<Seq<char>>, Seq<char>, Seq<char>, Seq<char>, Seq<char>, Seq<char>, Seq<char>) {
        (self.family.deep_view(), self.target@, self.tagname@, self.arch@, self.tool_code@, self.attribute@, self.value@)
    }
}

impl BuildOptionEntry {
    /// The entry that the key and the optional value of a line describe, if any.
    pub open spec fn spec_from_key_value_pair(key: Seq<char>, value: Option<Seq<char>>) -> Option<(Option<Seq<char>>, Seq<char>, Seq<char>, Seq<char>, Seq<char>, Seq<char>, Seq<char>)> {
        match build_option_shape(key) {
            Some((family, target, tagname, arch, tool_code, attribute)) => Some(
                (
                    family,
                    target,
                    tagname,
                    arch,
                    tool_code,
                    attribute,
                    match value {
                        Some(v) => v,
                        None => Seq::<char>::empty(),
                    },
                ),
            ),
            None => None,
        }
    }

    /// The fields of an entry in the order in which they are stored.
    pub open spec fn spec_fields(e: (Option<Seq<char>>, Seq<char>, Seq<char>, Seq<char>, Seq<char>, Seq<char>, Seq<char>)) -> Seq<Option<Seq<char>>> {
        seq![e.0, Some(e.1), Some(e.2), Some(e.3), Some(e.4), Some(e.5), Some(e.6)]
    }

    /// The entry whose fields, in the order in which they are stored, are `fs`, if they make one.
    pub open spec fn spec_from_fields(fs: Seq<Option<Seq<char>>>) -> Option<(Option<Seq<char>>, Seq<char>, Seq<char>, Seq<char>, Seq<char>, Seq<char>, Seq<char>)> {
        if fs.len() == 7 && fs[1] is Some && fs[2] is Some && fs[3] is Some && fs[4] is Some && fs[5] is Some && fs[6] is Some {
            Some((fs[0], fs[1]->0, fs[2]->0, fs[3]->0, fs[4]->0, fs[5]->0, fs[6]->0))
        } else {
            None
        }
    }

    /// The text that renders an entry.
    pub open spec fn spec_to_string(e: (Option<Seq<char>>, Seq<char>, Seq<char>, Seq<char>, Seq<char>, Seq<char>, Seq<char>)) -> Seq<char> {
        opt_prefix(e.0, ":"@) + e.1 + "_"@ + e.2 + "_"@ + e.3 + "_"@ + e.4 + "_"@ + e.5 + " = "@ + e.6
    }

    /// The entry whose fields, in the order in which they are stored, are `fs`, if they make one.
    fn from_fields(fs: &Vec<Option<String>>) -> (r: Option<Self>)
        ensures
            match Self::spec_from_fields(fs.deep_view()) {
                Some(v) => r matches Some(e) && e@ == v,
                None => r is None,
            },
    {
        if fs.len() != 7 {
            return None;
        }
        match (field_at(fs, 0), field_at(fs, 1), field_at(fs, 2), field_at(fs, 3), field_at(fs, 4), field_at(fs, 5), field_at(fs, 6)) {
            (family, Some(target), Some(tagname), Some(arch), Some(tool_code), Some(attribute), Some(value)) => Some(BuildOptionEntry { family, target, tagname, arch, tool_code, attribute, value }),
            _ => None,
        }
    }

    /// Decodes the record form that `to_bytes` writes: a MessagePack array of
    /// the entry's fields in the order in which they are stored. Other forms
    /// that a serde reader of the entry would also take, such as a map from
    /// field names to values, are not read here.
    pub fn from_record(buf: &[u8]) -> (r: Option<Self>)
        ensures
            match msgpack_decoded(buf@) {
                Some(fs) => match Self::spec_from_fields(fs) {
                    Some(v) => r matches Some(e) && e@ == v,
                    None => r is None,
                },
                None => r is None,
            },
            forall|v: (Option<Seq<char>>, Seq<char>, Seq<char>, Seq<char>, Seq<char>, Seq<char>, Seq<char>)|
                record_fits(#[trigger] Self::spec_fields(v)) && buf@ == msgpack_record(Self::spec_fields(v))
                    ==> (r matches Some(e) && e@ == v),
    {
        match decode_record(buf) {
            Some(fs) => Self::from_fields(&fs),
            None => None,
        }
    }

    /// The name of the section that holds such entries.
    pub fn section_name() -> (r: &'static str)
        ensures
            r@ == "buildoptions"@,
    {
        "buildoptions"
    }

    /// Reads the entry from the key and the optional value of a line.
    pub fn from_key_value_pair(key: String, value: Option<String>) -> (r: core::result::Result<Self, ParseError>)
        ensures
            match r {
                Ok(e) => Self::spec_from_key_value_pair(key@, value.deep_view()) == Some(e@),
                Err(err) => Self::spec_from_key_value_pair(key@, value.deep_view()) is None
                    && err.is_invalid_format("[<family>:]<target>_<tagname>_<arch>_<tool_code>_<attribute> = <value>"@),
            },
    {
        match parse_build_option(key.as_str()) {
            Some((family, target, tagname, arch, tool_code, attribute)) => {
                let value = match value {
                    Some(v) => v,
                    None => String::new(),
                };
                Ok(BuildOptionEntry { family, target, tagname, arch, tool_code, attribute, value })
            },
            None => Err(
                ParseError::InvalidFormat(
                    String::from_str(
                        "[<family>:]<target>_<tagname>_<arch>_<tool_code>_<attribute> = <value>",
                    ),
                ),
            ),
        }
    }

    /// The fields of the entry in the order in which they are stored.
    pub fn fields(&self) -> (r: Vec<Option<String>>)
        ensures
            r.deep_view() == Self::spec_fields(self@),
    {
        let mut r: Vec<Option<String>> = Vec::new();
        r.push(self.family.clone());
        r.push(Some(self.target.clone()));
        r.push(Some(self.tagname.clone()));
        r.push(Some(self.arch.clone()));
        r.push(Some(self.tool_code.clone()));
        r.push(Some(self.attribute.clone()));
        r.push(Some(self.value.clone()));
        assert(r.deep_view() =~= Self::spec_fields(self@));
        r
    }

    /// The text that renders the entry.
    pub fn to_string(&self) -> (r: String)
        ensures
            r@ == Self::spec_to_string(self@),
    {
        opt_prefix_string(&self.family, ":").concat(self.target.as_str()).concat("_").concat(
            self.tagname.as_str(),
        ).concat("_").concat(self.arch.as_str()).concat("_").concat(self.tool_code.as_str()).concat(
            "_",
        ).concat(self.attribute.as_str()).concat(" = ").concat(self.value.as_str())
    }

    /// Reads the entry from a line and encodes it as MessagePack.
    pub fn to_bytes(key: String, value: Option<String>) -> (r: core::result::Result<Vec<u8>, ParseError>)
        ensures
            match r {
                Ok(b) => Self::spec_from_key_value_pair(key@, value.deep_view()) matches Some(e)
                    && b@ == msgpack_record(Self::spec_fields(e)),
                Err(err) => Self::spec_from_key_value_pair(key@, value.deep_view()) is None
                    && err.is_invalid_format("[<family>:]<target>_<tagname>_<arch>_<tool_code>_<attribute> = <value>"@),
            },
    {
        match Self::from_key_value_pair(key, value) {
            Ok(e) => Ok(encode_record(&e.fields())),
            Err(err) => Err(err),
        }
    }
}

/// The records that the entries are encoded as list the fields of the entry in
/// the order in which the entry declares them, each text field present and
/// each optional field as it stands.
/// An encoded `DefineEntry` lists `name`, `value`, in that order.
pub proof fn define_entry_fields_in_order(e: DefineEntry)
    ensures
        DefineEntry::spec_fields(e@) == seq![Some(e.name@), Some(e.value@)],
{
}

/// An encoded `SourceEntry` lists `path`, `family`, in that order.
pub proof fn source_entry_fields_in_order(e: SourceEntry)
    ensures
        SourceEntry::spec_fields(e@) == seq![Some(e.path@), e.family.deep_view()],
{
}

/// An encoded `BinaryEntry` lists `filetype`, `path`, `target`, `tagname`, `family`, in that order.
pub proof fn binary_entry_fields_in_order(e: BinaryEntry)
    ensures
        BinaryEntry::spec_fields(e@) == seq![Some(e.filetype@), Some(e.path@), Some(e.target@), Some(e.tagname@), Some(e.family@)],
{
}

/// An encoded `ProtocolEntry` lists `name`, `expression`, in that order.
pub proof fn protocol_entry_fields_in_order(e: ProtocolEntry)
    ensures
        ProtocolEntry::spec_fields(e@) == seq![Some(e.name@), e.expression.deep_view()],
{
}

/// An encoded `PpiEntry` lists `name`, `expression`, in that order.
pub proof fn ppi_entry_fields_in_order(e: PpiEntry)
    ensures
        PpiEntry::spec_fields(e@) == seq![Some(e.name@), e.expression.deep_view()],
{
}

/// An encoded `GuidEntry` lists `name`, `expression`, in that order.
pub proof fn guid_entry_fields_in_order(e: GuidEntry)
    ensures
        GuidEntry::spec_fields(e@) == seq![Some(e.name@), e.expression.deep_view()],
{
}

/// An encoded `LibraryClassEntry` lists `name`, `expression`, in that order.
pub proof fn library_class_entry_fields_in_order(e: LibraryClassEntry)
    ensures
        LibraryClassEntry::spec_fields(e@) == seq![Some(e.name@), e.expression.deep_view()],
{
}

/// An encoded `PackageEntry` lists `name`, in that order.
pub proof fn package_entry_fields_in_order(e: PackageEntry)
    ensures
        PackageEntry::spec_fields(e@) == seq![Some(e.name@)],
{
}

/// An encoded `FeaturePcdEntry` lists `token_space`, `name`, `value`, `expression`, in that order.
pub proof fn feature_pcd_entry_fields_in_order(e: FeaturePcdEntry)
    ensures
        FeaturePcdEntry::spec_fields(e@) == seq![Some(e.token_space@), Some(e.name@), e.value.deep_view(), e.expression.deep_view()],
{
}

/// An encoded `FixedPcdEntry` lists `token_space`, `name`, `value`, `expression`, in that order.
pub proof fn fixed_pcd_entry_fields_in_order(e: FixedPcdEntry)
    ensures
        FixedPcdEntry::spec_fields(e@) == seq![Some(e.token_space@), Some(e.name@), e.value.deep_view(), e.expression.deep_view()],
{
}

/// An encoded `PcdEntry` lists `token_space`, `name`, `value`, `expression`, in that order.
pub proof fn pcd_entry_fields_in_order(e: PcdEntry)
    ensures
        PcdEntry::spec_fields(e@) == seq![Some(e.token_space@), Some(e.name@), e.value.deep_view(), e.expression.deep_view()],
{
}

/// An encoded `PcdExEntry` lists `token_space`, `name`, `value`, `expression`, in that order.
pub proof fn pcd_ex_entry_fields_in_order(e: PcdExEntry)
    ensures
        PcdExEntry::spec_fields(e@) == seq![Some(e.token_space@), Some(e.name@), e.value.deep_view(), e.expression.deep_view()],
{
}

/// An encoded `PatchPcdEntry` lists `token_space`, `name`, `value`, `hex`, in that order.
pub proof fn patch_pcd_entry_fields_in_order(e: PatchPcdEntry)
    ensures
        PatchPcdEntry::spec_fields(e@) == seq![Some(e.token_space@), Some(e.name@), Some(e.value@), Some(e.hex@)],
{
}

/// An encoded `BuildOptionEntry` lists `family`, `target`, `tagname`, `arch`, `tool_code`, `attribute`, `value`, in that order.
pub proof fn build_option_entry_fields_in_order(e: BuildOptionEntry)
    ensures
        BuildOptionEntry::spec_fields(e@) == seq![e.family.deep_view(), Some(e.target@), Some(e.tagname@), Some(e.arch@), Some(e.tool_code@), Some(e.attribute@), Some(e.value@)],
{
}

/// A `[Binaries]` line `<filetype>|<path>[|<target>[|<family>[|<tagname>]]]`
/// is read piece by piece between its `|`s, each trimmed, in the order in which
/// the pieces stand; the target, family and tag name that are left out are `*`.
/// The entry lists filetype, path, target, tag name, family. A line of fewer
/// than two or more than five pieces is refused.
pub proof fn binary_entry_pieces(key: Seq<char>, value: Option<Seq<char>>)
    ensures
        ({
            let p = pipe_pieces(key);
            let star = "*"@;
            &&& p.len() == 2 ==> BinaryEntry::spec_from_key_value_pair(key, value) == Some(
                (trim(p[0]), trim(p[1]), star, star, star),
            )
            &&& p.len() == 3 ==> BinaryEntry::spec_from_key_value_pair(key, value) == Some(
                (trim(p[0]), trim(p[1]), trim(p[2]), star, star),
            )
            &&& p.len() == 4 ==> BinaryEntry::spec_from_key_value_pair(key, value) == Some(
                (trim(p[0]), trim(p[1]), trim(p[2]), star, trim(p[3])),
            )
            &&& p.len() == 5 ==> BinaryEntry::spec_from_key_value_pair(key, value) == Some(
                (trim(p[0]), trim(p[1]), trim(p[2]), trim(p[4]), trim(p[3])),
            )
            &&& (p.len() < 2 || p.len() > 5) ==> BinaryEntry::spec_from_key_value_pair(key, value)
                is None
        }),
{
}


/// A `SourceEntry` line `<path>[|<family>]` is read as its one or two `|` pieces, in order,
/// each trimmed; a line of more than two pieces is refused.
pub proof fn source_entry_pieces(key: Seq<char>, value: Option<Seq<char>>)
    ensures
        ({
            let p = pipe_pieces(key);
            &&& p.len() == 1 ==> SourceEntry::spec_from_key_value_pair(key, value) == Some(
                (trim(p[0]), None::<Seq<char>>),
            )
            &&& p.len() == 2 ==> SourceEntry::spec_from_key_value_pair(key, value) == Some(
                (trim(p[0]), Some(trim(p[1]))),
            )
            &&& p.len() > 2 ==> SourceEntry::spec_from_key_value_pair(key, value) is None
        }),
{
    lemma_split_nonempty(key, seq!['|']);
}

/// A `ProtocolEntry` line `<name>[|<expression>]` is read as its one or two `|` pieces, in order,
/// each trimmed; a line of more than two pieces is refused.
pub proof fn protocol_entry_pieces(key: Seq<char>, value: Option<Seq<char>>)
    ensures
        ({
            let p = pipe_pieces(key);
            &&& p.len() == 1 ==> ProtocolEntry::spec_from_key_value_pair(key, value) == Some(
                (trim(p[0]), None::<Seq<char>>),
            )
            &&& p.len() == 2 ==> ProtocolEntry::spec_from_key_value_pair(key, value) == Some(
                (trim(p[0]), Some(trim(p[1]))),
            )
            &&& p.len() > 2 ==> ProtocolEntry::spec_from_key_value_pair(key, value) is None
        }),
{
    lemma_split_nonempty(key, seq!['|']);
}

/// A `PpiEntry` line `<name>[|<expression>]` is read as its one or two `|` pieces, in order,
/// each trimmed; a line of more than two pieces is refused.
pub proof fn ppi_entry_pieces(key: Seq<char>, value: Option<Seq<char>>)
    ensures
        ({
            let p = pipe_pieces(key);
            &&& p.len() == 1 ==> PpiEntry::spec_from_key_value_pair(key, value) == Some(
                (trim(p[0]), None::<Seq<char>>),
            )
            &&& p.len() == 2 ==> PpiEntry::spec_from_key_value_pair(key, value) == Some(
                (trim(p[0]), Some(trim(p[1]))),
            )
            &&& p.len() > 2 ==> PpiEntry::spec_from_key_value_pair(key, value) is None
        }),
{
    lemma_split_nonempty(key, seq!['|']);
}

/// A `GuidEntry` line `<name>[|<expression>]` is read as its one or two `|` pieces, in order,
/// each trimmed; a line of more than two pieces is refused.
pub proof fn guid_entry_pieces(key: Seq<char>, value: Option<Seq<char>>)
    ensures
        ({
            let p = pipe_pieces(key);
            &&& p.len() == 1 ==> GuidEntry::spec_from_key_value_pair(key, value) == Some(
                (trim(p[0]), None::<Seq<char>>),
            )
            &&& p.len() == 2 ==> GuidEntry::spec_from_key_value_pair(key, value) == Some(
                (trim(p[0]), Some(trim(p[1]))),
            )
            &&& p.len() > 2 ==> GuidEntry::spec_from_key_value_pair(key, value) is None
        }),
{
    lemma_split_nonempty(key, seq!['|']);
}

/// A `LibraryClassEntry` line `<name>[|<expression>]` is read as its one or two `|` pieces, in order,
/// each trimmed; a line of more than two pieces is refused.
pub proof fn library_class_entry_pieces(key: Seq<char>, value: Option<Seq<char>>)
    ensures
        ({
            let p = pipe_pieces(key);
            &&& p.len() == 1 ==> LibraryClassEntry::spec_from_key_value_pair(key, value) == Some(
                (trim(p[0]), None::<Seq<char>>),
            )
            &&& p.len() == 2 ==> LibraryClassEntry::spec_from_key_value_pair(key, value) == Some(
                (trim(p[0]), Some(trim(p[1]))),
            )
            &&& p.len() > 2 ==> LibraryClassEntry::spec_from_key_value_pair(key, value) is None
        }),
{
    lemma_split_nonempty(key, seq!['|']);
}

/// A `FeaturePcdEntry` line `<token_space>.<name>[|<value>][|<expression>]` is read as its
/// `|` pieces in order: the first split at its first `.` into the token space
/// and the name, then the value, then the expression, each trimmed; a line of
/// more than three pieces, or whose first piece has no `.`, is refused.
pub proof fn feature_pcd_entry_pieces(key: Seq<char>, value: Option<Seq<char>>)
    ensures
        ({
            let p = pipe_pieces(key);
            let d = split_once(p[0], '.')->0;
            &&& p.len() > 3 ==> FeaturePcdEntry::spec_from_key_value_pair(key, value) is None
            &&& p.len() <= 3 && split_once(p[0], '.') is None ==> FeaturePcdEntry::spec_from_key_value_pair(
                key,
                value,
            ) is None
            &&& p.len() <= 3 && split_once(p[0], '.') is Some ==> FeaturePcdEntry::spec_from_key_value_pair(
                key,
                value,
            ) == Some(
                (
                    trim(d.0),
                    trim(d.1),
                    if p.len() >= 2 {
                        Some(trim(p[1]))
                    } else {
                        None
                    },
                    if p.len() == 3 {
                        Some(trim(p[2]))
                    } else {
                        None
                    },
                ),
            )
        }),
{
    lemma_split_nonempty(key, seq!['|']);
}

/// A `FixedPcdEntry` line `<token_space>.<name>[|<value>][|<expression>]` is read as its
/// `|` pieces in order: the first split at its first `.` into the token space
/// and the name, then the value, then the expression, each trimmed; a line of
/// more than three pieces, or whose first piece has no `.`, is refused.
pub proof fn fixed_pcd_entry_pieces(key: Seq<char>, value: Option<Seq<char>>)
    ensures
        ({
            let p = pipe_pieces(key);
            let d = split_once(p[0], '.')->0;
            &&& p.len() > 3 ==> FixedPcdEntry::spec_from_key_value_pair(key, value) is None
            &&& p.len() <= 3 && split_once(p[0], '.') is None ==> FixedPcdEntry::spec_from_key_value_pair(
                key,
                value,
            ) is None
            &&& p.len() <= 3 && split_once(p[0], '.') is Some ==> FixedPcdEntry::spec_from_key_value_pair(
                key,
                value,
            ) == Some(
                (
                    trim(d.0),
                    trim(d.1),
                    if p.len() >= 2 {
                        Some(trim(p[1]))
                    } else {
                        None
                    },
                    if p.len() == 3 {
                        Some(trim(p[2]))
                    } else {
                        None
                    },
                ),
            )
        }),
{
    lemma_split_nonempty(key, seq!['|']);
}

/// A `PcdEntry` line `<token_space>.<name>[|<value>][|<expression>]` is read as its
/// `|` pieces in order: the first split at its first `.` into the token space
/// and the name, then the value, then the expression, each trimmed; a line of
/// more than three pieces, or whose first piece has no `.`, is refused.
pub proof fn pcd_entry_pieces(key: Seq<char>, value: Option<Seq<char>>)
    ensures
        ({
            let p = pipe_pieces(key);
            let d = split_once(p[0], '.')->0;
            &&& p.len() > 3 ==> PcdEntry::spec_from_key_value_pair(key, value) is None
            &&& p.len() <= 3 && split_once(p[0], '.') is None ==> PcdEntry::spec_from_key_value_pair(
                key,
                value,
            ) is None
            &&& p.len() <= 3 && split_once(p[0], '.') is Some ==> PcdEntry::spec_from_key_value_pair(
                key,
                value,
            ) == Some(
                (
                    trim(d.0),
                    trim(d.1),
                    if p.len() >= 2 {
                        Some(trim(p[1]))
                    } else {
                        None
                    },
                    if p.len() == 3 {
                        Some(trim(p[2]))
                    } else {
                        None
                    },
                ),
            )
        }),
{
    lemma_split_nonempty(key, seq!['|']);
}

/// A `PcdExEntry` line `<token_space>.<name>[|<value>][|<expression>]` is read as its
/// `|` pieces in order: the first split at its first `.` into the token space
/// and the name, then the value, then the expression, each trimmed; a line of
/// more than three pieces, or whose first piece has no `.`, is refused.
pub proof fn pcd_ex_entry_pieces(key: Seq<char>, value: Option<Seq<char>>)
    ensures
        ({
            let p = pipe_pieces(key);
            let d = split_once(p[0], '.')->0;
            &&& p.len() > 3 ==> PcdExEntry::spec_from_key_value_pair(key, value) is None
            &&& p.len() <= 3 && split_once(p[0], '.') is None ==> PcdExEntry::spec_from_key_value_pair(
                key,
                value,
            ) is None
            &&& p.len() <= 3 && split_once(p[0], '.') is Some ==> PcdExEntry::spec_from_key_value_pair(
                key,
                value,
            ) == Some(
                (
                    trim(d.0),
                    trim(d.1),
                    if p.len() >= 2 {
                        Some(trim(p[1]))
                    } else {
                        None
                    },
                    if p.len() == 3 {
                        Some(trim(p[2]))
                    } else {
                        None
                    },
                ),
            )
        }),
{
    lemma_split_nonempty(key, seq!['|']);
}

/// A `[PatchPcd]` line `<token_space>.<name>|<value>|<hex>` is read as its three
/// `|` pieces in order, the first split at its first `.`, each trimmed; any
/// other line is refused.
pub proof fn patch_pcd_entry_pieces(key: Seq<char>, value: Option<Seq<char>>)
    ensures
        ({
            let p = pipe_pieces(key);
            let d = split_once(p[0], '.')->0;
            &&& p.len() != 3 ==> PatchPcdEntry::spec_from_key_value_pair(key, value) is None
            &&& p.len() == 3 && split_once(p[0], '.') is None ==> PatchPcdEntry::spec_from_key_value_pair(
                key,
                value,
            ) is None
            &&& p.len() == 3 && split_once(p[0], '.') is Some
                ==> PatchPcdEntry::spec_from_key_value_pair(key, value) == Some(
                (trim(d.0), trim(d.1), trim(p[1]), trim(p[2])),
            )
        }),
{
}

/// A `[BuildOptions]` line is read from its name split at every `:` and `_`,
/// the parts trimmed and in order: five parts are target, tag name, arch, tool
/// code and attribute; six have the family first. The value is kept as it
/// stands, empty when there is none. Any other name is refused.
pub proof fn build_option_entry_pieces(key: Seq<char>, value: Option<Seq<char>>)
    ensures
        ({
            let q = split(key, option_delimiters());
            let v = match value {
                Some(x) => x,
                None => Seq::<char>::empty(),
            };
            &&& q.len() == 5 ==> BuildOptionEntry::spec_from_key_value_pair(key, value) == Some(
                (None::<Seq<char>>, trim(q[0]), trim(q[1]), trim(q[2]), trim(q[3]), trim(q[4]), v),
            )
            &&& q.len() == 6 ==> BuildOptionEntry::spec_from_key_value_pair(key, value) == Some(
                (Some(trim(q[0])), trim(q[1]), trim(q[2]), trim(q[3]), trim(q[4]), trim(q[5]), v),
            )
            &&& q.len() != 5 && q.len() != 6 ==> BuildOptionEntry::spec_from_key_value_pair(key, value)
                is None
        }),
{
}

/// A `[Defines]` line `<name> = <value>` is read as its name and value, both
/// trimmed; a line without a value is refused.
pub proof fn define_entry_pieces(key: Seq<char>, value: Option<Seq<char>>)
    ensures
        value matches Some(v) ==> DefineEntry::spec_from_key_value_pair(key, value) == Some(
            (trim(key), trim(v)),
        ),
        value is None ==> DefineEntry::spec_from_key_value_pair(key, value) is None,
{
}

/// A line of `[Packages]`, `[Depex]` or `[UserExtensions]` is read as the whole
/// line trimmed, whatever it holds.
pub proof fn whole_line_entry_pieces(key: Seq<char>, value: Option<Seq<char>>)
    ensures
        PackageEntry::spec_from_key_value_pair(key, value) == Some(trim(key)),
        DepexEntry::spec_from_key_value_pair(key, value) == Some(trim(key)),
        UserExtensionEntry::spec_from_key_value_pair(key, value) == Some(trim(key)),
{
}

} // verus!
