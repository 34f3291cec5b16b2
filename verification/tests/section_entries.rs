use edk2_parser::section::{
    BinaryEntry, BuildOptionEntry, DefineEntry, DepexEntry, FeaturePcdEntry, FixedPcdEntry,
    GuidEntry, LibraryClassEntry, PackageEntry, PatchPcdEntry, PcdEntry, PcdExEntry, PpiEntry,
    ProtocolEntry, SourceEntry, UserExtensionEntry,
};

#[test]
fn test_define_entry() {
    assert_eq!(DefineEntry::section_name(), "defines");
    let entry = DefineEntry::from_key_value_pair(
        "INF_VERSION".to_string(),
        Some(" 0x00010005".to_string()),
    )
    .unwrap();
    assert_eq!(entry.name, "INF_VERSION");
    assert_eq!(entry.value, "0x00010005");
    assert_eq!(entry.to_string(), "INF_VERSION = 0x00010005");
}

#[test]
fn test_source_entry() {
    assert_eq!(SourceEntry::section_name(), "sources");
    let entry = SourceEntry::from_key_value_pair("  MyFile.c".to_string(), None).unwrap();
    assert_eq!(entry.path, "MyFile.c");
    assert_eq!(entry.to_string(), "MyFile.c");

    let entry = SourceEntry::from_key_value_pair("MyFile.c | MSFT".to_string(), None).unwrap();
    assert_eq!(entry.path, "MyFile.c");
    assert_eq!(entry.family, Some("MSFT".to_string()));
    assert_eq!(entry.to_string(), "MyFile.c|MSFT");
}

#[test]
fn test_binary_entry() {
    assert_eq!(BinaryEntry::section_name(), "binaries");
    let entry = BinaryEntry::from_key_value_pair("RAW|MyFile/file.ext".to_string(), None).unwrap();
    assert_eq!(entry.filetype, "RAW");
    assert_eq!(entry.path, "MyFile/file.ext");
    assert_eq!(entry.target, "*");
    assert_eq!(entry.family, "*");
    assert_eq!(entry.tagname, "*");
    assert_eq!(entry.to_string(), "RAW|MyFile/file.ext|*|*|*");

    let entry =
        BinaryEntry::from_key_value_pair("RAW|MyFile/file.ext|*|MSFT".to_string(), None).unwrap();
    assert_eq!(entry.filetype, "RAW");
    assert_eq!(entry.path, "MyFile/file.ext");
    assert_eq!(entry.target, "*");
    assert_eq!(entry.family, "MSFT");
    assert_eq!(entry.tagname, "*");
    assert_eq!(entry.to_string(), "RAW|MyFile/file.ext|*|MSFT|*");

    let entry =
        BinaryEntry::from_key_value_pair("RAW|MyFile/file.ext|RELEASE|*|MyTag".to_string(), None)
            .unwrap();
    assert_eq!(entry.filetype, "RAW");
    assert_eq!(entry.path, "MyFile/file.ext");
    assert_eq!(entry.target, "RELEASE");
    assert_eq!(entry.family, "*");
    assert_eq!(entry.tagname, "MyTag");
    assert_eq!(entry.to_string(), "RAW|MyFile/file.ext|RELEASE|*|MyTag");

    let entry =
        BinaryEntry::from_key_value_pair("RAW|MyFile/file.ext|*|*|MyTag".to_string(), None)
            .unwrap();
    assert_eq!(entry.filetype, "RAW");
    assert_eq!(entry.path, "MyFile/file.ext");
    assert_eq!(entry.target, "*");
    assert_eq!(entry.family, "*");
    assert_eq!(entry.tagname, "MyTag");
    assert_eq!(entry.to_string(), "RAW|MyFile/file.ext|*|*|MyTag");
}

#[test]
fn test_protocol_entry() {
    assert_eq!(ProtocolEntry::section_name(), "protocols");
    let entry =
        ProtocolEntry::from_key_value_pair("gEfiPciIoProtocolGuid".to_string(), None).unwrap();
    assert_eq!(entry.name, "gEfiPciIoProtocolGuid");
    assert_eq!(entry.expression, None);
    assert_eq!(entry.to_string(), "gEfiPciIoProtocolGuid");

    let entry =
        ProtocolEntry::from_key_value_pair("gEfiPciIoProtocolGuid|TRUE".to_string(), None).unwrap();
    assert_eq!(entry.name, "gEfiPciIoProtocolGuid");
    assert_eq!(entry.expression, Some("TRUE".to_string()));
    assert_eq!(entry.to_string(), "gEfiPciIoProtocolGuid | TRUE");
}

#[test]
fn test_ppi_entry() {
    assert_eq!(PpiEntry::section_name(), "ppis");
    let entry =
        PpiEntry::from_key_value_pair("gEfiPeiMemoryDiscoveredPpiGuid".to_string(), None).unwrap();
    assert_eq!(entry.name, "gEfiPeiMemoryDiscoveredPpiGuid");
    assert_eq!(entry.expression, None);
    assert_eq!(entry.to_string(), "gEfiPeiMemoryDiscoveredPpiGuid");

    let entry =
        PpiEntry::from_key_value_pair("gEfiPeiMemoryDiscoveredPpiGuid|TRUE".to_string(), None)
            .unwrap();
    assert_eq!(entry.name, "gEfiPeiMemoryDiscoveredPpiGuid");
    assert_eq!(entry.expression, Some("TRUE".to_string()));
    assert_eq!(entry.to_string(), "gEfiPeiMemoryDiscoveredPpiGuid|TRUE");
}

#[test]
fn test_guid_entry() {
    assert_eq!(GuidEntry::section_name(), "guids");
    let entry =
        GuidEntry::from_key_value_pair("gEfiHobMemoryAllocModuleGuid".to_string(), None).unwrap();
    assert_eq!(entry.name, "gEfiHobMemoryAllocModuleGuid");
    assert_eq!(entry.expression, None);
    assert_eq!(entry.to_string(), "gEfiHobMemoryAllocModuleGuid");

    let entry =
        GuidEntry::from_key_value_pair("gEfiHobMemoryAllocModuleGuid|TRUE".to_string(), None)
            .unwrap();
    assert_eq!(entry.name, "gEfiHobMemoryAllocModuleGuid");
    assert_eq!(entry.expression, Some("TRUE".to_string()));
    assert_eq!(entry.to_string(), "gEfiHobMemoryAllocModuleGuid|TRUE");
}

#[test]
fn test_library_class_entry() {
    assert_eq!(LibraryClassEntry::section_name(), "libraryclasses");
    let entry = LibraryClassEntry::from_key_value_pair("MyLib".to_string(), None).unwrap();
    assert_eq!(entry.name, "MyLib");
    assert_eq!(entry.expression, None);
    assert_eq!(entry.to_string(), "MyLib");

    let entry = LibraryClassEntry::from_key_value_pair("MyLib|TRUE".to_string(), None).unwrap();
    assert_eq!(entry.name, "MyLib");
    assert_eq!(entry.expression, Some("TRUE".to_string()));
    assert_eq!(entry.to_string(), "MyLib|TRUE");
}

#[test]
fn test_package_entry() {
    assert_eq!(PackageEntry::section_name(), "packages");
    let entry = PackageEntry::from_key_value_pair("MdePkg/MdePkg.dec".to_string(), None).unwrap();
    assert_eq!(entry.name, "MdePkg/MdePkg.dec");
    assert_eq!(entry.to_string(), "MdePkg/MdePkg.dec");
}

#[test]
fn test_feature_pcd_entry() {
    assert_eq!(FeaturePcdEntry::section_name(), "featurepcd");
    let entry =
        FeaturePcdEntry::from_key_value_pair("gTokenSpace.PcdMyFeature|TRUE".to_string(), None)
            .unwrap();
    assert_eq!(entry.token_space, "gTokenSpace");
    assert_eq!(entry.name, "PcdMyFeature");
    assert_eq!(entry.value, Some("TRUE".to_string()));
    assert_eq!(entry.expression, None);
    assert_eq!(entry.to_string(), "gTokenSpace.PcdMyFeature|TRUE");

    let entry =
        FeaturePcdEntry::from_key_value_pair("gTokenSpace.PcdMyFeature".to_string(), None).unwrap();
    assert_eq!(entry.token_space, "gTokenSpace");
    assert_eq!(entry.name, "PcdMyFeature");
    assert_eq!(entry.value, None);
    assert_eq!(entry.expression, None);
    assert_eq!(entry.to_string(), "gTokenSpace.PcdMyFeature");

    let entry = FeaturePcdEntry::from_key_value_pair(
        "gTokenSpace.PcdMyFeature|L\"HELLO\"|TRUE".to_string(),
        None,
    )
    .unwrap();
    assert_eq!(entry.token_space, "gTokenSpace");
    assert_eq!(entry.name, "PcdMyFeature");
    assert_eq!(entry.value, Some("L\"HELLO\"".to_string()));
    assert_eq!(entry.expression, Some("TRUE".to_string()));
    assert_eq!(entry.to_string(), "gTokenSpace.PcdMyFeature|L\"HELLO\"|TRUE");
}

#[test]
fn test_fixed_pcd_entry() {
    assert_eq!(FixedPcdEntry::section_name(), "fixedpcd");
    let entry =
        FixedPcdEntry::from_key_value_pair("gTokenSpace.PcdMyFeature|TRUE".to_string(), None)
            .unwrap();
    assert_eq!(entry.token_space, "gTokenSpace");
    assert_eq!(entry.name, "PcdMyFeature");
    assert_eq!(entry.value, Some("TRUE".to_string()));
    assert_eq!(entry.expression, None);
    assert_eq!(entry.to_string(), "gTokenSpace.PcdMyFeature|TRUE");

    let entry =
        FixedPcdEntry::from_key_value_pair("gTokenSpace.PcdMyFeature".to_string(), None).unwrap();
    assert_eq!(entry.token_space, "gTokenSpace");
    assert_eq!(entry.name, "PcdMyFeature");
    assert_eq!(entry.value, None);
    assert_eq!(entry.expression, None);
    assert_eq!(entry.to_string(), "gTokenSpace.PcdMyFeature");

    let entry = FixedPcdEntry::from_key_value_pair(
        "gTokenSpace.PcdMyFeature|L\"HELLO\"|TRUE".to_string(),
        None,
    )
    .unwrap();
    assert_eq!(entry.token_space, "gTokenSpace");
    assert_eq!(entry.name, "PcdMyFeature");
    assert_eq!(entry.value, Some("L\"HELLO\"".to_string()));
    assert_eq!(entry.expression, Some("TRUE".to_string()));
    assert_eq!(entry.to_string(), "gTokenSpace.PcdMyFeature|L\"HELLO\"|TRUE");
}

#[test]
fn test_patch_pcd_entry() {
    assert_eq!(PatchPcdEntry::section_name(), "patchpcd");
    let entry = PatchPcdEntry::from_key_value_pair(
        "gTokenSpace.PcdMyFeature|TRUE|0x1234".to_string(),
        None,
    )
    .unwrap();
    assert_eq!(entry.token_space, "gTokenSpace");
    assert_eq!(entry.name, "PcdMyFeature");
    assert_eq!(entry.value, "TRUE");
    assert_eq!(entry.hex, "0x1234");
    assert_eq!(entry.to_string(), "gTokenSpace.PcdMyFeature|TRUE|0x1234");
}

#[test]
fn test_pcd_entry() {
    assert_eq!(PcdEntry::section_name(), "pcd");
    let entry = PcdEntry::from_key_value_pair("gTokenSpace.MyPcd|TRUE".to_string(), None).unwrap();
    assert_eq!(entry.token_space, "gTokenSpace");
    assert_eq!(entry.name, "MyPcd");
    assert_eq!(entry.value, Some("TRUE".to_string()));
    assert_eq!(entry.expression, None);
    assert_eq!(entry.to_string(), "gTokenSpace.MyPcd|TRUE");

    let entry = PcdEntry::from_key_value_pair("gTokenSpace.MyPcd".to_string(), None).unwrap();
    assert_eq!(entry.token_space, "gTokenSpace");
    assert_eq!(entry.name, "MyPcd");
    assert_eq!(entry.value, None);
    assert_eq!(entry.expression, None);
    assert_eq!(entry.to_string(), "gTokenSpace.MyPcd");

    let entry =
        PcdEntry::from_key_value_pair("gTokenSpace.MyPcd|L\"HELLO\"|TRUE".to_string(), None)
            .unwrap();
    assert_eq!(entry.token_space, "gTokenSpace");
    assert_eq!(entry.name, "MyPcd");
    assert_eq!(entry.value, Some("L\"HELLO\"".to_string()));
    assert_eq!(entry.expression, Some("TRUE".to_string()));
    assert_eq!(entry.to_string(), "gTokenSpace.MyPcd|L\"HELLO\"|TRUE");
}

#[test]
fn test_pcd_ex_entry() {
    assert_eq!(PcdExEntry::section_name(), "pcdex");
    let entry = PcdExEntry::from_key_value_pair("gTokenSpace.MyPcd|TRUE".to_string(), None).unwrap();
    assert_eq!(entry.token_space, "gTokenSpace");
    assert_eq!(entry.name, "MyPcd");
    assert_eq!(entry.value, Some("TRUE".to_string()));
    assert_eq!(entry.expression, None);
    assert_eq!(entry.to_string(), "gTokenSpace.MyPcd|TRUE");

    let entry = PcdExEntry::from_key_value_pair("gTokenSpace.MyPcd".to_string(), None).unwrap();
    assert_eq!(entry.token_space, "gTokenSpace");
    assert_eq!(entry.name, "MyPcd");
    assert_eq!(entry.value, None);
    assert_eq!(entry.expression, None);
    assert_eq!(entry.to_string(), "gTokenSpace.MyPcd");

    let entry =
        PcdExEntry::from_key_value_pair("gTokenSpace.MyPcd|L\"HELLO\"|TRUE".to_string(), None)
            .unwrap();
    assert_eq!(entry.token_space, "gTokenSpace");
    assert_eq!(entry.name, "MyPcd");
    assert_eq!(entry.value, Some("L\"HELLO\"".to_string()));
    assert_eq!(entry.expression, Some("TRUE".to_string()));
    assert_eq!(entry.to_string(), "gTokenSpace.MyPcd|L\"HELLO\"|TRUE");
}

#[test]
fn test_depex_entry() {
    assert_eq!(DepexEntry::section_name(), "depex");
    let entry = DepexEntry::from_key_value_pair("TRUE".to_string(), None).unwrap();
    assert_eq!(entry.value(), "TRUE");
    assert_eq!(entry.to_string(), "TRUE");
}

#[test]
fn test_user_extension_entry() {
    assert_eq!(UserExtensionEntry::section_name(), "userextensions");
    let entry =
        UserExtensionEntry::from_key_value_pair("MyUserExtension".to_string(), None).unwrap();
    assert_eq!(entry.value(), "MyUserExtension");
    assert_eq!(entry.to_string(), "MyUserExtension");
}

#[test]
fn test_build_option_entry() {
    assert_eq!(BuildOptionEntry::section_name(), "buildoptions");
    let entry =
        BuildOptionEntry::from_key_value_pair("RELEASE_VS2022_IA32_DLINK_FLAGS".to_string(), None)
            .unwrap();
    assert_eq!(entry.family, None);
    assert_eq!(entry.target, "RELEASE");
    assert_eq!(entry.tagname, "VS2022");
    assert_eq!(entry.arch, "IA32");
    assert_eq!(entry.tool_code, "DLINK");
    assert_eq!(entry.attribute, "FLAGS");
    assert_eq!(entry.value, "");
    assert_eq!(entry.to_string(), "RELEASE_VS2022_IA32_DLINK_FLAGS = ");

    let entry = BuildOptionEntry::from_key_value_pair(
        "MSFT:RELEASE_*_*_DLINK_PATH".to_string(),
        Some("= C:\\link.exe".to_string()),
    )
    .unwrap();
    assert_eq!(entry.family, Some("MSFT".to_string()));
    assert_eq!(entry.target, "RELEASE");
    assert_eq!(entry.tagname, "*");
    assert_eq!(entry.arch, "*");
    assert_eq!(entry.tool_code, "DLINK");
    assert_eq!(entry.attribute, "PATH");
    assert_eq!(entry.value, "= C:\\link.exe".to_string());
    assert_eq!(entry.to_string(), "MSFT:RELEASE_*_*_DLINK_PATH = = C:\\link.exe");

    let entry = BuildOptionEntry::from_key_value_pair(
        "MSFT:*_*_*_CC_FLAGS".to_string(),
        Some("=MyValue".to_string()),
    )
    .unwrap();
    assert_eq!(entry.family, Some("MSFT".to_string()));
    assert_eq!(entry.target, "*");
    assert_eq!(entry.tagname, "*");
    assert_eq!(entry.arch, "*");
    assert_eq!(entry.tool_code, "CC");
    assert_eq!(entry.attribute, "FLAGS");
    assert_eq!(entry.value, "=MyValue".to_string());
    assert_eq!(entry.to_string(), "MSFT:*_*_*_CC_FLAGS = =MyValue");

    let entry = BuildOptionEntry::from_key_value_pair(
        "MSFT:*_*_*_CC_FLAGS".to_string(),
        Some("".to_string()),
    )
    .unwrap();
    assert_eq!(entry.family, Some("MSFT".to_string()));
    assert_eq!(entry.target, "*");
    assert_eq!(entry.tagname, "*");
    assert_eq!(entry.arch, "*");
    assert_eq!(entry.tool_code, "CC");
    assert_eq!(entry.attribute, "FLAGS");
    assert_eq!(entry.value, "".to_string());
    assert_eq!(entry.to_string(), "MSFT:*_*_*_CC_FLAGS = ");
}
