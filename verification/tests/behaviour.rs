use edk2_parser::condition::{condition_query_str, parse_blocks, rewrite_condition_str, rewrite_not_str, Block};
use edk2_parser::err::ParseError;
use edk2_parser::error::Error;
use edk2_parser::grammar::{parse_define_line, parse_section_header};
use edk2_parser::macros::MacroMap;
use edk2_parser::rows::Row;
use edk2_parser::section::common::name_expression;
use edk2_parser::section::specific::{defines, sources};
use edk2_parser::section::{
    BinaryEntry, BuildOptionEntry, DefineEntry, PackageEntry, PatchPcdEntry, PcdEntry, ProtocolEntry,
    SectionType, SourceEntry,
};
use edk2_parser::text::lines;
use edk2_parser::{DscParser, InfParser};

fn strs(items: &[&str]) -> Vec<String> {
    items.iter().map(|s| s.to_string()).collect()
}

#[test]
fn rendered_entries_read_back() {
    let e = ProtocolEntry::from_key_value_pair("gA | TRUE".to_string(), None).unwrap();
    assert_eq!(e.to_string(), "gA | TRUE");
    let back = ProtocolEntry::from_key_value_pair(e.to_string(), None).unwrap();
    assert_eq!(back.name, "gA");
    assert_eq!(back.expression, Some("TRUE".to_string()));

    let e = BinaryEntry::from_key_value_pair("PE32|a.efi|DEBUG|GCC|T".to_string(), None).unwrap();
    let back = BinaryEntry::from_key_value_pair(e.to_string(), None).unwrap();
    assert_eq!(
        (back.filetype, back.path, back.target, back.family, back.tagname),
        ("PE32".to_string(), "a.efi".to_string(), "DEBUG".to_string(), "GCC".to_string(), "T".to_string())
    );

    let e = PatchPcdEntry::from_key_value_pair("g.P.x|1|0x10".to_string(), None).unwrap();
    assert_eq!(e.name, "P.x");
    let back = PatchPcdEntry::from_key_value_pair(e.to_string(), None).unwrap();
    assert_eq!((back.token_space, back.name, back.value, back.hex), ("g".to_string(), "P.x".to_string(), "1".to_string(), "0x10".to_string()));

    let e = BuildOptionEntry::from_key_value_pair("GCC:DEBUG_*_X64_CC_FLAGS".to_string(), Some("-O2".to_string())).unwrap();
    assert_eq!(e.to_string(), "GCC:DEBUG_*_X64_CC_FLAGS = -O2");
}

#[test]
fn pcd_expression_without_value_reads_back_as_value() {
    let e = PcdEntry {
        token_space: "g".to_string(),
        name: "P".to_string(),
        value: None,
        expression: Some("TRUE".to_string()),
    };
    assert_eq!(e.to_string(), "g.P|TRUE");
    let back = PcdEntry::from_key_value_pair(e.to_string(), None).unwrap();
    assert_eq!(back.value, Some("TRUE".to_string()));
    assert_eq!(back.expression, None);
}

#[test]
fn every_section_is_found_by_its_name() {
    let names = [
        (DefineEntry::section_name(), SectionType::Defines),
        (SourceEntry::section_name(), SectionType::Sources),
        (BinaryEntry::section_name(), SectionType::Binaries),
        (ProtocolEntry::section_name(), SectionType::Protocols),
        ("ppis", SectionType::Ppis),
        ("guids", SectionType::Guids),
        ("libraryclasses", SectionType::LibraryClasses),
        ("packages", SectionType::Packages),
        ("featurepcd", SectionType::FeaturePcd),
        ("fixedpcd", SectionType::FixedPcd),
        (PatchPcdEntry::section_name(), SectionType::PatchPcd),
        (PcdEntry::section_name(), SectionType::Pcd),
        ("pcdex", SectionType::PcdEx),
        ("depex", SectionType::Depex),
        ("userextensions", SectionType::UserExtensions),
        (BuildOptionEntry::section_name(), SectionType::BuildOptions),
    ];
    for (name, t) in names {
        assert_eq!(SectionType::from_str(name).unwrap(), t);
    }
    match SectionType::from_str("Sources") {
        Err(ParseError::UnknownSection(n)) => assert_eq!(n, "Sources"),
        other => panic!("unexpected {:?}", other),
    }
}

#[test]
fn entries_are_encoded_as_messagepack_arrays() {
    let b = SectionType::Defines
        .to_bytes("INF_VERSION".to_string(), Some(" 0x00010005".to_string()))
        .unwrap();
    let mut expected = vec![0x92u8, 0xab];
    expected.extend_from_slice(b"INF_VERSION");
    expected.push(0xaa);
    expected.extend_from_slice(b"0x00010005");
    assert_eq!(b, expected);

    let b = SourceEntry::to_bytes("a.c".to_string(), None).unwrap();
    assert_eq!(b, vec![0x92u8, 0xa3, b'a', b'.', b'c', 0xc0]);
}

#[test]
fn malformed_lines_are_refused_with_their_shape() {
    match DefineEntry::from_key_value_pair("X".to_string(), None) {
        Err(ParseError::InvalidFormat(m)) => assert_eq!(m, "<name> = <value>"),
        other => panic!("unexpected {:?}", other.is_ok()),
    }
    match SourceEntry::from_key_value_pair("a|b|c".to_string(), None) {
        Err(ParseError::InvalidFormat(m)) => assert_eq!(m, "<path>[|<family>]"),
        other => panic!("unexpected {:?}", other.is_ok()),
    }
    assert!(BinaryEntry::from_key_value_pair("RAW".to_string(), None).is_err());
    assert!(PcdEntry::from_key_value_pair("NoDot|1".to_string(), None).is_err());
    assert!(PatchPcdEntry::from_key_value_pair("g.P|1".to_string(), None).is_err());
    assert!(BuildOptionEntry::from_key_value_pair("DEBUG_GCC_CC_FLAGS".to_string(), None).is_err());
    match SectionType::Sources.to_bytes("a|b|c".to_string(), None) {
        Err(e) => assert_eq!(e.message(), "Invalid Format. Expected [<path>[|<family>]]"),
        other => panic!("unexpected {:?}", other),
    }
}

#[test]
fn error_messages() {
    assert_eq!(
        Error::InvalidFormat("a".to_string(), "b".to_string()).message(),
        "Invalid Format.\n  Expected [a]\n  Detected [b]"
    );
    assert_eq!(Error::UnknownSection("x".to_string()).message(), "Unknown Section: [x]");
    assert_eq!(Error::MissingFile("f".to_string()).message(), "Could not find file: [f]");
    assert_eq!(ParseError::UnknownSection("y".to_string()).message(), "Unknown Section: [y]");
}

#[test]
fn rows_stop_at_the_first_bad_line() {
    let section = vec![
        ("a.c".to_string(), None),
        ("b.c|X|Y".to_string(), None),
        ("c.c".to_string(), None),
    ];
    let r = sources::parse(&section, &"sources".to_string(), &Some("ia32".to_string()), &None);
    assert_eq!(r.rows.len(), 1);
    assert_eq!(r.scope1, Some("ia32".to_string()));
    match r.error {
        Some(Error::InvalidFormat(e, d)) => {
            assert_eq!(e, "<path>[|<family>]");
            assert_eq!(d, "b.c|X|Y");
        }
        other => panic!("unexpected {:?}", other),
    }

    let section = vec![("KEY".to_string(), None)];
    let r = defines::parse(&section, &"defines".to_string(), &None, &None);
    match r.error {
        Some(Error::InvalidFormat(e, d)) => {
            assert_eq!(e, "[DEFINE] <key> = <value>");
            assert_eq!(d, "KEY = None");
        }
        other => panic!("unexpected {:?}", other),
    }

    let section = vec![("a|b|c".to_string(), None)];
    let r = name_expression::parse(&section, &"ppis".to_string(), &None, &None);
    assert!(r.rows.is_empty());
    assert!(r.error.is_some());
}

#[test]
fn parse_reads_a_whole_inf_file() {
    let text = "[Defines]\n  INF_VERSION = 0x00010005\n  BASE_NAME = BaseLib\n  DEFINE MY_PATH = Dir\n\n[Sources.IA32]\n  $(MY_PATH)/a.c\n  b.c|MSFT\n[Packages]\n  MdePkg/MdePkg.dec\n";
    let mut parser = InfParser::new();
    let out = parser.parse(text.to_string());
    assert!(out.error.is_none());
    assert!(parser.lines.is_none());
    assert_eq!(out.sections.len(), 3);

    let defs = &out.sections[0];
    assert_eq!(defs.table, "defines");
    assert!(defs.error.is_none());
    let got: Vec<(String, String)> = defs
        .rows
        .iter()
        .map(|r| match r {
            Row::Define { key, value } => (key.clone(), value.clone()),
            other => panic!("unexpected {:?}", other),
        })
        .collect();
    assert_eq!(
        got,
        vec![
            ("INF_VERSION".to_string(), "0x00010005".to_string()),
            ("BASE_NAME".to_string(), "BaseLib".to_string())
        ]
    );

    let srcs = &out.sections[1];
    assert_eq!(srcs.table, "sources");
    assert_eq!(srcs.scope1, Some("ia32".to_string()));
    assert_eq!(srcs.scope2, None);
    let got: Vec<(String, Option<String>)> = srcs
        .rows
        .iter()
        .map(|r| match r {
            Row::Source { src_path, family } => (src_path.clone(), family.clone()),
            other => panic!("unexpected {:?}", other),
        })
        .collect();
    assert_eq!(got, vec![("Dir/a.c".to_string(), None), ("b.c".to_string(), Some("MSFT".to_string()))]);

    match &out.sections[2].rows[0] {
        Row::NameOnly { name } => assert_eq!(name, "MdePkg/MdePkg.dec"),
        other => panic!("unexpected {:?}", other),
    }
}

#[test]
fn parse_stops_at_a_refused_header() {
    let mut parser = InfParser::new();
    let out = parser.parse("[Sources]\n  a.c\n[Foo]\n  x\n".to_string());
    assert_eq!(out.sections.len(), 1);
    match out.error {
        Some(Error::UnknownSection(n)) => assert_eq!(n, "foo"),
        other => panic!("unexpected {:?}", other),
    }

    let mut parser = InfParser::new();
    let out = parser.parse("[Sources.a.b.c]\n  a.c\n".to_string());
    assert!(out.sections.is_empty());
    match out.error {
        Some(Error::InvalidFormat(e, d)) => {
            assert_eq!(e, "<sectionname>[.<scope1>[.<scope2]]");
            assert_eq!(d, "sources.a.b.c");
        }
        other => panic!("unexpected {:?}", other),
    }

    let mut parser = DscParser::new();
    let out = parser.parse("[Defines]\n  A = 1\n".to_string());
    match out.error {
        Some(Error::UnknownSection(n)) => assert_eq!(n, "defines"),
        other => panic!("unexpected {:?}", other),
    }
}

#[test]
fn section_headers_and_defines() {
    assert_eq!(parse_section_header("  [Sources.IA32, Sources.X64]  "), Some("Sources.IA32, Sources.X64".to_string()));
    assert_eq!(parse_section_header("[Sources|X]"), None);
    assert_eq!(parse_section_header("[Quellen.Überall]"), Some("Quellen.Überall".to_string()));
    assert_eq!(parse_section_header("Sources"), None);
    assert_eq!(
        parse_define_line("  define  Var_1  =  some value "),
        Some(("Var_1".to_string(), "some value ".to_string()))
    );
    assert_eq!(parse_define_line("DEFINEX = 1"), None);
}

#[test]
fn macro_table_reads_back_what_was_written() {
    let mut m = MacroMap::new();
    assert_eq!(m.get(&"defines".to_string(), &"A".to_string()), None);
    m.insert("defines".to_string(), "A".to_string(), "1".to_string());
    m.insert("sources".to_string(), "A".to_string(), "2".to_string());
    m.insert("defines".to_string(), "A".to_string(), "3".to_string());
    assert_eq!(m.get(&"defines".to_string(), &"A".to_string()), Some("3".to_string()));
    assert_eq!(m.get(&"sources".to_string(), &"A".to_string()), Some("2".to_string()));
    assert_eq!(m.get(&"sources".to_string(), &"B".to_string()), None);
}

#[test]
fn macros_come_from_the_most_specific_section() {
    let parser = InfParser::new();
    let mut m = MacroMap::new();
    m.insert("defines".to_string(), "V".to_string(), "d".to_string());
    m.insert("sources".to_string(), "V".to_string(), "s".to_string());
    m.insert("sources.ia32".to_string(), "V".to_string(), "i".to_string());
    assert_eq!(parser.replace_macro("V".to_string(), &m, "sources.ia32".to_string()), Some("i".to_string()));
    assert_eq!(parser.replace_macro("V".to_string(), &m, "sources.x64".to_string()), Some("s".to_string()));
    assert_eq!(parser.replace_macro("V".to_string(), &m, "binaries".to_string()), Some("d".to_string()));
    assert_eq!(parser.replace_macro("W".to_string(), &m, "binaries".to_string()), None);
}

#[test]
fn conditions_are_rewritten_for_sqlite() {
    assert_eq!(rewrite_condition_str(&"$(A) EQ 1 && $(B) NE 2".to_string()), "$(A) == 1 AND $(B) !=2");
    assert_eq!(rewrite_not_str(&"!(1 == 2) != 3".to_string()), "NOT (1 == 2) != 3");
    assert_eq!(condition_query_str(&"5 GT 4".to_string()), "SELECT 5 > 4 AS result");
    let b = Block::If("5 > 4".to_string(), Vec::new());
    assert_eq!(b.eval(), Some(true));
    assert_eq!(Block::Statement("X".to_string()).eval(), Some(true));
    assert_eq!(b._eval(&"1 +".to_string()), None);
}

#[test]
fn blocks_nest_under_their_directives() {
    let ls = strs(&["!if A", "X", "!else", "Y", "!endif", "Z"]);
    let (blocks, pos) = parse_blocks(&ls, 0);
    assert_eq!(pos, 6);
    assert_eq!(blocks.len(), 3);
    match &blocks[0] {
        Block::If(c, inner) => {
            assert_eq!(c, " A");
            assert_eq!(inner.len(), 1);
            assert!(matches!(&inner[0], Block::Statement(s) if s == "X"));
        }
        other => panic!("unexpected {:?}", other),
    }
    match &blocks[1] {
        Block::Else(inner) => assert!(matches!(&inner[0], Block::Statement(s) if s == "Y")),
        other => panic!("unexpected {:?}", other),
    }
    assert!(matches!(&blocks[2], Block::Statement(s) if s == "Z"));
}

#[test]
fn text_is_split_into_lines() {
    assert_eq!(lines("a\r\nb\n\nc"), strs(&["a", "b", "", "c"]));
    assert_eq!(lines("a\n"), strs(&["a"]));
    assert!(lines("").is_empty());
}

#[test]
fn define_keys_are_read_in_upper_case() {
    let section = vec![("define my_var".to_string(), Some(" x ".to_string())), ("Other".to_string(), Some("y".to_string()))];
    let r = defines::parse(&section, &"defines".to_string(), &None, &None);
    assert!(r.error.is_none());
    let got: Vec<(String, String)> = r
        .rows
        .iter()
        .map(|row| match row {
            Row::Define { key, value } => (key.clone(), value.clone()),
            other => panic!("unexpected {:?}", other),
        })
        .collect();
    assert_eq!(got, vec![("MY_VAR".to_string(), "x".to_string()), ("OTHER".to_string(), "y".to_string())]);
}

#[test]
fn encoded_entries_decode_back() {
    let b = DefineEntry::to_bytes("INF_VERSION".to_string(), Some(" 0x00010005".to_string())).unwrap();
    let e = DefineEntry::from_record(&b).unwrap();
    assert_eq!((e.name, e.value), ("INF_VERSION".to_string(), "0x00010005".to_string()));

    let b = SourceEntry::to_bytes("a.c".to_string(), None).unwrap();
    let e = SourceEntry::from_record(&b).unwrap();
    assert_eq!((e.path, e.family), ("a.c".to_string(), None));

    let b = BuildOptionEntry::to_bytes("MSFT:*_*_*_CC_FLAGS".to_string(), Some("=MyValue".to_string())).unwrap();
    let e = BuildOptionEntry::from_record(&b).unwrap();
    assert_eq!(e.family, Some("MSFT".to_string()));
    assert_eq!(e.tool_code, "CC");
    assert_eq!(e.value, "=MyValue");

    let b = PcdEntry::to_bytes("g.P|L\"Ü\"|TRUE".to_string(), None).unwrap();
    let e = PcdEntry::from_record(&b).unwrap();
    assert_eq!(e.value, Some("L\"Ü\"".to_string()));
    assert_eq!(e.expression, Some("TRUE".to_string()));

    let b = edk2_parser::section::DepexEntry::to_bytes(" TRUE ".to_string(), None).unwrap();
    assert_eq!(edk2_parser::section::DepexEntry::from_record(&b).unwrap().value(), "TRUE");
}

#[test]
fn foreign_bytes_are_not_decoded() {
    let b = SourceEntry::to_bytes("a.c".to_string(), None).unwrap();
    assert!(BinaryEntry::from_record(&b).is_none());
    assert!(DefineEntry::from_record(&b).is_none());
    assert!(SourceEntry::from_record(&[0xc1]).is_none());
    assert!(SourceEntry::from_record(&[]).is_none());
    assert!(PackageEntry::from_record(&[0x91, 0xc0]).is_none());
    assert_eq!(PackageEntry::from_record(&[0x91, 0xa1, b'x']).unwrap().name, "x");
}

#[test]
fn quoted_macro_references_are_kept() {
    let mut parser = InfParser::new();
    parser.lines = Some(strs(&[
        "[Defines]",
        "  DEFINE F = x",
        "[BuildOptions]",
        "  MSFT:*_*_*_CC_FLAGS = \"$(F)\" $(F)",
        "  GCC:*_*_*_CC_FLAGS = \"open $(F)",
    ]));
    parser.replace_macros().unwrap();
    assert_eq!(
        parser.lines.unwrap(),
        strs(&[
            "[Defines]",
            "[BuildOptions]",
            "  MSFT:*_*_*_CC_FLAGS = \"$(F)\" x",
            "  GCC:*_*_*_CC_FLAGS = \"open $(F)",
        ])
    );
}

#[test]
fn encoding_succeeds_exactly_when_the_line_reads() {
    assert!(SectionType::Defines.to_bytes("INF_VERSION".into(), None).is_err());
    assert!(SectionType::Sources.to_bytes("a.c|MSFT|x".into(), None).is_err());
    assert!(SectionType::PatchPcd.to_bytes("gTokenSpace.PcdMyFeature|TRUE".into(), None).is_err());
    assert!(SectionType::BuildOptions.to_bytes("RELEASE_VS2022".into(), None).is_err());
    assert!(SectionType::Packages.to_bytes("MdePkg/MdePkg.dec".into(), None).is_ok());
    assert!(SectionType::Binaries.to_bytes("RAW|a|b|c|d".into(), None).is_ok());
}

fn flat(blocks: &[Block], out: &mut Vec<String>) {
    for b in blocks {
        match b {
            Block::If(_, inner) | Block::ElseIf(_, inner) | Block::Else(inner) => flat(inner, out),
            Block::Statement(s) => out.push(s.clone()),
        }
    }
}

#[test]
fn well_nested_blocks_are_read_to_the_end() {
    let ls = strs(&[
        "!if $(X) = \"TRUE\"",
        "  DEFINE Y = 3",
        "!else",
        "  !if $(Z) = \"TRUE\"",
        "    DEFINE Y = 4",
        "  !else if $(Z) = \"FALSE\"",
        "    DEFINE Y = 5",
        "  !endif",
        "!endif",
        "",
        "DEFINE Z = 6",
    ]);
    let (blocks, pos) = parse_blocks(&ls, 0);
    assert_eq!(pos, ls.len());
    let mut out = Vec::new();
    flat(&blocks, &mut out);
    assert_eq!(out, strs(&["DEFINE Y = 3", "DEFINE Y = 4", "DEFINE Y = 5", "DEFINE Z = 6"]));
}
