use edk2_parser::rows::{Row, SectionRows};
use edk2_parser::section::common::{name_expression, name_only, pcds};
use edk2_parser::section::specific::{
    binaries, buildoptions, defines, depex, libraryclasses, patchpcd, sources,
};

fn lines(items: &[(&str, Option<&str>)]) -> Vec<(String, Option<String>)> {
    items.iter().map(|(k, v)| (k.to_string(), v.map(|s| s.to_string()))).collect()
}

fn run(
    parse: fn(&Vec<(String, Option<String>)>, &String, &Option<String>, &Option<String>) -> SectionRows,
    items: &[(&str, Option<&str>)],
    name: &str,
) -> SectionRows {
    let section = lines(items);
    let r = parse(&section, &name.to_string(), &None, &None);
    assert!(r.error.is_none());
    r
}

fn opt(s: &str) -> Option<String> {
    Some(s.to_string())
}

#[test]
fn name_only_simple() {
    let r = run(name_only::parse, &[("MdePkg/MdePkg.dec", None)], "packages");
    assert_eq!(r.table, "packages");
    match &r.rows[0] {
        Row::NameOnly { name } => assert_eq!(name, "MdePkg/MdePkg.dec"),
        other => panic!("unexpected row {:?}", other),
    }
}

#[test]
fn name_expression_simple() {
    let r = run(
        name_expression::parse,
        &[("gEfiPeiMemoryDiscoveredPpiGuid", None), ("gEfiPeiMemoryDiscoveredPpiGuid2|TRUE", None)],
        "commonsection",
    );
    assert_eq!(r.table, "commonsection");
    let results = vec![
        ("gEfiPeiMemoryDiscoveredPpiGuid", None),
        ("gEfiPeiMemoryDiscoveredPpiGuid2", Some(String::from("TRUE"))),
    ];
    assert_eq!(r.rows.len(), results.len());
    for (i, row) in r.rows.iter().enumerate() {
        match row {
            Row::NameExpression { name, expression } => {
                assert_eq!(name, results[i].0);
                assert_eq!(expression, &results[i].1);
            }
            other => panic!("unexpected row {:?}", other),
        }
    }
}

#[test]
fn pcds_simple() {
    let r = run(
        pcds::parse,
        &[
            ("gTokenSpace.PcdMyFeature", None),
            ("gTokenSpace.PcdMyFeature2|TRUE", None),
            ("gTokenSpace.PcdMyFeature3|L\"HELLO\"|TRUE", None),
        ],
        "featurepcds",
    );
    assert_eq!(r.table, "featurepcds");
    let results = vec![
        ("gTokenSpace", "PcdMyFeature", None, None),
        ("gTokenSpace", "PcdMyFeature2", Some("TRUE".to_string()), None),
        ("gTokenSpace", "PcdMyFeature3", Some("L\"HELLO\"".to_string()), Some("TRUE".to_string())),
    ];
    assert_eq!(r.rows.len(), results.len());
    for (i, row) in r.rows.iter().enumerate() {
        match row {
            Row::Pcd { token_space, name, value, expression } => {
                assert_eq!(token_space, results[i].0);
                assert_eq!(name, results[i].1);
                assert_eq!(value, &results[i].2);
                assert_eq!(expression, &results[i].3);
            }
            other => panic!("unexpected row {:?}", other),
        }
    }
}

#[test]
fn binaries_simple() {
    let r = run(
        binaries::parse,
        &[
            ("RAW|MyFile/file.ext", None),
            ("RAW|MyFile/file.ext|*|MSFT", None),
            ("RAW|MyFile/file.ext|RELEASE|*|MyTag", None),
            ("RAW|MyFile/file.ext|*|*|MyTag", None),
        ],
        "binaries",
    );
    let results = vec![
        ("RAW", "MyFile/file.ext", "*", "*", "*"),
        ("RAW", "MyFile/file.ext", "*", "MSFT", "*"),
        ("RAW", "MyFile/file.ext", "RELEASE", "*", "MyTag"),
        ("RAW", "MyFile/file.ext", "*", "*", "MyTag"),
    ];
    assert_eq!(r.rows.len(), results.len());
    for (i, row) in r.rows.iter().enumerate() {
        match row {
            Row::Binary { filetype, binpath, target, family, tagname } => {
                assert_eq!(filetype, results[i].0);
                assert_eq!(binpath, results[i].1);
                assert_eq!(target, results[i].2);
                assert_eq!(family, results[i].3);
                assert_eq!(tagname, results[i].4);
            }
            other => panic!("unexpected row {:?}", other),
        }
    }
}

#[test]
fn buildoptions_simple() {
    let r = run(
        buildoptions::parse,
        &[
            ("RELEASE_VS2022_IA32_DLINK_FLAGS", Some("")),
            ("MSFT:RELEASE_*_*_DLINK_PATH", Some("C:\\link.exe")),
            ("MSFT:*_*_*_DL_FLAGS", Some("MyValue")),
            ("MSFT:*_*_*_CC_FLAGS", None),
        ],
        "buildoptions",
    );
    let results = vec![
        (None, "RELEASE", "VS2022", "IA32", "DLINK", "FLAGS", ""),
        (Some("MSFT".to_string()), "RELEASE", "*", "*", "DLINK", "PATH", "C:\\link.exe"),
        (Some("MSFT".to_string()), "*", "*", "*", "DL", "FLAGS", "MyValue"),
        (Some("MSFT".to_string()), "*", "*", "*", "CC", "FLAGS", ""),
    ];
    assert_eq!(r.rows.len(), results.len());
    for (i, row) in r.rows.iter().enumerate() {
        match row {
            Row::BuildOption { family, target, tagname, arch, tool_code, attribute, value } => {
                assert_eq!(family, &results[i].0);
                assert_eq!(target, results[i].1);
                assert_eq!(tagname, results[i].2);
                assert_eq!(arch, results[i].3);
                assert_eq!(tool_code, results[i].4);
                assert_eq!(attribute, results[i].5);
                assert_eq!(value, results[i].6);
            }
            other => panic!("unexpected row {:?}", other),
        }
    }
}

#[test]
fn defines_simple() {
    let r = run(defines::parse, &[("DEFINE MYVAR", Some("45")), ("MYVAR2", Some("HELLO"))], "defines");
    let results = vec![("MYVAR", "45"), ("MYVAR2", "HELLO")];
    assert_eq!(r.rows.len(), results.len());
    for (i, row) in r.rows.iter().enumerate() {
        match row {
            Row::Define { key, value } => {
                assert_eq!(key, results[i].0);
                assert_eq!(value, results[i].1);
            }
            other => panic!("unexpected row {:?}", other),
        }
    }
}

#[test]
fn depex_simple() {
    let r = run(depex::parse, &[("TRUE1", None), ("  TRUE2", None), ("FALSE3", None)], "depex");
    let results = vec!["TRUE1".to_string(), "TRUE2".to_string(), "FALSE3".to_string()];
    assert_eq!(r.rows.len(), results.len());
    for (i, row) in r.rows.iter().enumerate() {
        match row {
            Row::Depex { value } => assert_eq!(value, &results[i]),
            other => panic!("unexpected row {:?}", other),
        }
    }
}

#[test]
fn libraryclasses_simple() {
    let r = run(libraryclasses::parse, &[("HobLib", None), ("HobLib2|TRUE", None)], "libraryclasses");
    let results = vec![("HobLib", None), ("HobLib2", Some(String::from("TRUE")))];
    assert_eq!(r.rows.len(), results.len());
    for (i, row) in r.rows.iter().enumerate() {
        match row {
            Row::LibraryClass { name, expression } => {
                assert_eq!(name, results[i].0);
                assert_eq!(expression, &results[i].1);
            }
            other => panic!("unexpected row {:?}", other),
        }
    }
}

#[test]
fn patchpcd_simple() {
    let r = run(patchpcd::parse, &[("gTokenSpace.PcdMyFeature|TRUE|0x1234", None)], "patchpcd");
    let results = vec![("gTokenSpace", "PcdMyFeature", "TRUE", "0x1234")];
    assert_eq!(r.rows.len(), results.len());
    for (i, row) in r.rows.iter().enumerate() {
        match row {
            Row::PatchPcd { token_space, name, value, hex } => {
                assert_eq!(token_space, results[i].0);
                assert_eq!(name, results[i].1);
                assert_eq!(value, results[i].2);
                assert_eq!(hex, results[i].3);
            }
            other => panic!("unexpected row {:?}", other),
        }
    }
}

#[test]
fn sources_simple() {
    let r = run(sources::parse, &[("MyFile.c", None), ("MyFile2.c|MSFT", None)], "sources");
    let results = vec![("MyFile.c", None), ("MyFile2.c", Some(String::from("MSFT")))];
    assert_eq!(r.rows.len(), results.len());
    for (i, row) in r.rows.iter().enumerate() {
        match row {
            Row::Source { src_path, family } => {
                assert_eq!(src_path, results[i].0);
                assert_eq!(family, &results[i].1);
            }
            other => panic!("unexpected row {:?}", other),
        }
    }
}
