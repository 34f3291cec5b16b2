use edk2_parser::condition::{parse_blocks, Block};
use edk2_parser::InfParser;

#[test]
fn test_create_search_patterns() {
    let parser = InfParser::new();
    assert_eq!(
        parser.create_search_patterns("sources".to_string()),
        vec!["sources.common".to_string(), "sources".to_string()]
    );
    assert_eq!(
        parser.create_search_patterns("sources.ia32".to_string()),
        vec!["sources.ia32".to_string(), "sources.common".to_string(), "sources".to_string()]
    );
    assert_eq!(
        parser.create_search_patterns("sources.common".to_string()),
        vec!["sources.common".to_string(), "sources".to_string()]
    );
    assert_eq!(
        parser.create_search_patterns("sources.ia32.dxe_driver".to_string()),
        vec![
            "sources.ia32.dxe_driver".to_string(),
            "sources.common.dxe_driver".to_string(),
            "sources.ia32".to_string(),
            "sources.common".to_string(),
            "sources".to_string()
        ]
    );
    assert_eq!(
        parser.create_search_patterns("sources.common.dxe_driver".to_string()),
        vec!["sources.common.dxe_driver", "sources.common", "sources"]
    );
}

#[test]
fn test_expand_document() {
    let mut parser = InfParser::new();
    let src = [
        "[Sources]",
        "  Myfile.c",
        "  MyFile2.c",
        "[Sources.IA32, Sources.X64]",
        "  Myfile3.c",
        "  Myfile4.c",
    ];
    parser.lines = Some(src.iter().map(|x| x.to_string()).collect());

    parser.expand_document().expect("Failed to split sections");

    let result = vec![
        "[sources]",
        "  Myfile.c",
        "  MyFile2.c",
        "[sources.ia32]",
        "  Myfile3.c",
        "  Myfile4.c",
        "[sources.x64]",
        "  Myfile3.c",
        "  Myfile4.c",
    ];
    assert_eq!(parser.lines.unwrap(), result);
}

#[test]
fn test_replace_macros() {
    let mut parser = InfParser::new();
    let src = vec![
        "[Defines]",
        "  DEFINE VAR = MyPath",
        "[Sources]",
        "  DEFINE  VAR1  =  MyPath1",
        "  $(VAR)/MyFile.c",
        "  $(VAR1)/Myfile1.c",
        "  MyFile2.c",
        "[Sources.IA32]",
        "  DEFINE VAR2 = MyPath2",
        "  $(VAR1)/Myfile3.c",
        "  $(VAR2)/Myfile4.c",
        "  $(VAR1)/$(VAR2)/MyFile5.c",
        "  $(VAR3)/Myfile6.c",
    ];
    parser.lines = Some(src.iter().map(|x| x.to_string()).collect());

    parser.replace_macros().expect("Failed to split sections");

    let result = vec![
        "[Defines]",
        "[Sources]",
        "  MyPath/MyFile.c",
        "  MyPath1/Myfile1.c",
        "  MyFile2.c",
        "[Sources.IA32]",
        "  MyPath1/Myfile3.c",
        "  MyPath2/Myfile4.c",
        "  MyPath1/MyPath2/MyFile5.c",
        "  $(VAR3)/Myfile6.c",
    ];
    assert_eq!(parser.lines.unwrap(), result);
}

#[test]
fn test_parse_blocks() {
    let data = r#"
        !if $(X) = "TRUE"
          DEFINE Y = 3
        !else
          !if $(Z) = "TRUE"
            DEFINE Y = 4
          !else if $(Z) = "FALSE"
            DEFINE Y = 5
          !endif
        !endif
        DEFINE Z = 6
        "#;
    let lines: Vec<String> = data.lines().map(|line| line.to_string()).collect();
    let _v = parse_blocks(&lines, 0);
}

#[test]
fn test_eval() {
    let tester = Block::Else(Vec::new());
    let tests = vec![
        (r#"(5 > 6) OR (5 > 4)"#, true),
        (r#"(5 > 6) || (5 > 4)"#, true),
        (r#"(5 > 6) AND (5 > 4)"#, false),
        (r#"(5 > 6) && (5 > 4)"#, false),
        (r#"(5 | 3) == 7"#, true),
        (r#"(5 & 3) == 1"#, true),
        (r#"5 == 5"#, true),
        (r#""A" == "A""#, true),
        (r#"5 EQ 5"#, true),
        (r#""A" EQ "A""#, true),
        (r#"5 != 5"#, false),
        (r#""A" != "A""#, false),
        (r#"5 NE 5"#, false),
        (r#""A" NE "A""#, false),
        (r#"5 >= 5"#, true),
        (r#"5 GE 5"#, true),
        (r#"5 <= 5"#, true),
        (r#"5 LE 5"#, true),
        (r#"5 > 5"#, false),
        (r#"5 GT 5"#, false),
        (r#"5 < 5"#, false),
        (r#"5 LT 5"#, false),
        (r#"NOT (5 == 5)"#, false),
        (r#"!(5 == 5)"#, false),
    ];
    for (test, result) in tests {
        assert_eq!(tester._eval(&test.to_string()), Some(result));
    }
}
