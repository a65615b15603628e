use cargo_generate_rpm::arch::{host_rpm_arch, resolve_arch, same_text};
use cargo_generate_rpm::config::{Config, Package};
use cargo_generate_rpm::descriptor::{describe_package, PackageDescriptor};
use cargo_generate_rpm::error::{ConfigError, GenerateError};
use cargo_generate_rpm::mode::{names_directory, parse_octal_str, resolve_mode};
use cargo_generate_rpm::tree::ConfigTable;

fn settings(text: &str) -> ConfigTable {
    toml::from_str(text).unwrap()
}

fn package() -> Package {
    Package {
        name: "tool".to_owned(),
        version: Some("1.2.3".to_owned()),
        license: Some("MIT".to_owned()),
        description: Some("A tool".to_owned()),
        metadata: None,
    }
}

fn describe(package: &Package, text: &str) -> Result<PackageDescriptor, ConfigError> {
    describe_package(package, &settings(text), None, "x86_64")
}

fn manifest(generate_rpm: &str) -> Config {
    let text = format!(
        "[package]\nname = \"tool\"\nversion = \"1.2.3\"\nlicense = \"MIT\"\n\
         description = \"A tool\"\n[package.metadata.generate-rpm]\nassets = []\n{}",
        generate_rpm
    );
    Config::new(text.as_bytes()).unwrap()
}

#[test]
fn scalars_come_from_the_package_table() {
    assert_eq!(
        describe(&package(), "assets = []\n").unwrap(),
        PackageDescriptor {
            name: "tool".to_owned(),
            version: "1.2.3".to_owned(),
            license: "MIT".to_owned(),
            arch: "x86_64".to_owned(),
            description: "A tool".to_owned(),
            release: None,
            epoch: None,
            pre_install_script: None,
            pre_uninstall_script: None,
            post_install_script: None,
            post_uninstall_script: None,
        }
    );
}

#[test]
fn scalars_of_the_metadata_go_first() {
    let text = "name = \"tool-bin\"\nversion = \"9.9\"\nlicense = \"Apache-2.0\"\n\
                summary = \"The tool\"\nrelease = 3\nepoch = 2\n\
                pre_install_script = \"echo a\"\npre_uninstall_script = \"echo b\"\n\
                post_install_script = \"echo c\"\npost_uninstall_script = \"echo d\"\n";
    assert_eq!(
        describe_package(&package(), &settings(text), Some("noarch".to_owned()), "x86").unwrap(),
        PackageDescriptor {
            name: "tool-bin".to_owned(),
            version: "9.9".to_owned(),
            license: "Apache-2.0".to_owned(),
            arch: "noarch".to_owned(),
            description: "The tool".to_owned(),
            release: Some(3),
            epoch: Some(2),
            pre_install_script: Some("echo a".to_owned()),
            pre_uninstall_script: Some("echo b".to_owned()),
            post_install_script: Some("echo c".to_owned()),
            post_uninstall_script: Some("echo d".to_owned()),
        }
    );
}

#[test]
fn license_is_required() {
    let mut bare = package();
    bare.license = None;
    assert!(matches!(
        describe(&bare, "release = 1\nsummary = \"s\"\n"),
        Err(ConfigError::Missing("package.license"))
    ));
    assert_eq!(describe(&bare, "license = \"MIT\"\n").unwrap().license, "MIT");
    let config = Config::new(
        b"[package]\nname = \"a\"\nversion = \"1.0.0\"\ndescription = \"d\"\n\
          [package.metadata.generate-rpm]\nassets = []\n",
    )
    .unwrap();
    assert!(matches!(
        config.create_rpm_builder(None, "x86_64"),
        Err(GenerateError::Config(ConfigError::Missing("package.license")))
    ));
}

#[test]
fn description_is_required() {
    let mut bare = package();
    bare.description = None;
    assert!(matches!(
        describe(&bare, "release = 1\n"),
        Err(ConfigError::Missing("package.description"))
    ));
    assert_eq!(describe(&bare, "summary = \"s\"\n").unwrap().description, "s");
    let config = Config::new(
        b"[package]\nname = \"a\"\nversion = \"1.0.0\"\nlicense = \"MIT\"\n\
          [package.metadata.generate-rpm]\nassets = []\n",
    )
    .unwrap();
    assert!(matches!(
        config.create_rpm_builder(None, "x86_64"),
        Err(GenerateError::Config(ConfigError::Missing("package.description")))
    ));
}

#[test]
fn license_is_asked_for_before_description() {
    let mut bare = package();
    bare.license = None;
    bare.description = None;
    assert!(matches!(
        describe(&bare, ""),
        Err(ConfigError::Missing("package.license"))
    ));
}

#[test]
fn a_version_left_to_the_workspace_is_missing() {
    let text = "[package]\nname = \"a\"\nversion = { workspace = true }\nlicense = \"MIT\"\n\
                description = \"d\"\n[package.metadata.generate-rpm]\nassets = []\n";
    let config = Config::new(text.as_bytes()).unwrap();
    assert_eq!(config.package().unwrap().version, None);
    assert!(matches!(
        config.create_rpm_builder(None, "x86_64"),
        Err(GenerateError::Config(ConfigError::Missing("package.version")))
    ));
    let text = format!("{}version = \"2.0\"\n", text);
    let config = Config::new(text.as_bytes()).unwrap();
    let plan = config.create_rpm_builder(None, "x86_64").unwrap();
    assert_eq!(plan.package.version, "2.0");
}

#[test]
fn strings_of_the_metadata_must_be_strings() {
    let cases: [(&str, &str); 8] = [
        ("name", "package.metadata.generate-rpm.name"),
        ("version", "package.metadata.generate-rpm.version"),
        ("license", "package.metadata.generate-rpm.license"),
        ("summary", "package.metadata.generate-rpm.summary"),
        ("pre_install_script", "package.metadata.generate-rpm.pre_install_script"),
        ("pre_uninstall_script", "package.metadata.generate-rpm.pre_uninstall_script"),
        ("post_install_script", "package.metadata.generate-rpm.post_install_script"),
        ("post_uninstall_script", "package.metadata.generate-rpm.post_uninstall_script"),
    ];
    for (key, path) in cases {
        match describe(&package(), &format!("{} = 1\n", key)) {
            Err(ConfigError::WrongType(field, expected)) => {
                assert_eq!(field, path);
                assert_eq!(expected, "string");
            }
            other => panic!("unexpected result {:?}", other),
        }
    }
}

#[test]
fn numbers_of_the_metadata_must_be_integers() {
    let cases: [(&str, &str); 2] = [
        ("release", "package.metadata.generate-rpm.release"),
        ("epoch", "package.metadata.generate-rpm.epoch"),
    ];
    for (key, path) in cases {
        for value in ["\"1\"", "1.0", "true"] {
            match describe(&package(), &format!("{} = {}\n", key, value)) {
                Err(ConfigError::WrongType(field, expected)) => {
                    assert_eq!(field, path);
                    assert_eq!(expected, "integer");
                }
                other => panic!("unexpected result {:?}", other),
            }
        }
    }
}

#[test]
fn the_first_wrong_scalar_is_reported() {
    assert!(matches!(
        describe(&package(), "epoch = \"1\"\nrelease = \"1\"\nsummary = 1\nversion = 1\n"),
        Err(ConfigError::WrongType("package.metadata.generate-rpm.version", "string"))
    ));
    assert!(matches!(
        describe(&package(), "epoch = \"1\"\nrelease = \"1\"\npost_install_script = 1\n"),
        Err(ConfigError::WrongType("package.metadata.generate-rpm.release", "integer"))
    ));
    assert!(matches!(
        describe(&package(), "post_uninstall_script = 1\npre_uninstall_script = 1\n"),
        Err(ConfigError::WrongType(
            "package.metadata.generate-rpm.pre_uninstall_script",
            "string"
        ))
    ));
}

#[test]
fn scalars_are_resolved_before_assets() {
    let config = manifest("release = \"1\"\n");
    assert!(matches!(
        config.create_rpm_builder(None, "x86_64"),
        Err(GenerateError::Config(ConfigError::WrongType(
            "package.metadata.generate-rpm.release",
            "integer"
        )))
    ));
    let config = Config::new(
        b"[package]\nname = \"a\"\nversion = \"1\"\nlicense = \"MIT\"\ndescription = \"d\"\n\
          [package.metadata.generate-rpm]\nassets = [{ source = \"a\" }]\n",
    )
    .unwrap();
    assert!(matches!(
        config.create_rpm_builder(None, "x86_64"),
        Err(GenerateError::Config(ConfigError::AssetFileUndefined(0, "dest")))
    ));
}

#[test]
fn release_keeps_its_low_16_bits() {
    assert_eq!(describe(&package(), "release = 0\n").unwrap().release, Some(0));
    assert_eq!(describe(&package(), "release = 65535\n").unwrap().release, Some(65535));
    assert_eq!(describe(&package(), "release = 65536\n").unwrap().release, Some(0));
    assert_eq!(describe(&package(), "release = 70000\n").unwrap().release, Some(4464));
    assert_eq!(describe(&package(), "release = -1\n").unwrap().release, Some(65535));
}

#[test]
fn epoch_keeps_its_low_32_bits() {
    assert_eq!(describe(&package(), "epoch = 7\n").unwrap().epoch, Some(7));
    assert_eq!(describe(&package(), "epoch = -7\n").unwrap().epoch, Some(-7));
    assert_eq!(
        describe(&package(), "epoch = 2147483647\n").unwrap().epoch,
        Some(i32::MAX)
    );
    assert_eq!(
        describe(&package(), "epoch = 2147483648\n").unwrap().epoch,
        Some(i32::MIN)
    );
    assert_eq!(describe(&package(), "epoch = 4294967301\n").unwrap().epoch, Some(5));
}

#[test]
fn architecture_of_the_host_gets_its_rpm_name() {
    assert_eq!(host_rpm_arch("x86"), "i586");
    assert_eq!(host_rpm_arch("arm"), "armhfp");
    assert_eq!(host_rpm_arch("powerpc"), "ppc");
    assert_eq!(host_rpm_arch("powerpc64"), "ppc64");
    assert_eq!(host_rpm_arch("x86_64"), "x86_64");
    assert_eq!(host_rpm_arch("aarch64"), "aarch64");
    assert_eq!(host_rpm_arch("X86"), "X86");
    assert_eq!(host_rpm_arch(""), "");
    assert_eq!(resolve_arch(None, "x86"), "i586");
}

#[test]
fn architecture_asked_for_is_taken_as_it_is() {
    for host in ["x86", "arm", "x86_64"] {
        assert_eq!(resolve_arch(Some("noarch".to_owned()), host), "noarch");
        assert_eq!(resolve_arch(Some("x86".to_owned()), host), "x86");
    }
    let plan = manifest("").create_rpm_builder(Some("noarch".to_owned()), "x86").unwrap();
    assert_eq!(plan.package.arch, "noarch");
    let plan = manifest("").create_rpm_builder(None, "x86").unwrap();
    assert_eq!(plan.package.arch, "i586");
}

#[test]
fn texts_are_compared_by_their_characters() {
    assert!(same_text("", ""));
    assert!(same_text("arm", "arm"));
    assert!(same_text("é/", "é/"));
    assert!(!same_text("arm", "arn"));
    assert!(!same_text("arm", "arm64"));
    assert!(!same_text("arm", ""));
    assert!(!same_text("e", "é"));
}

#[test]
fn octal_numerals() {
    assert_eq!(parse_octal_str("0"), Some(0));
    assert_eq!(parse_octal_str("644"), Some(420));
    assert_eq!(parse_octal_str("0755"), Some(493));
    assert_eq!(parse_octal_str("+17"), Some(15));
    assert_eq!(parse_octal_str("170000"), Some(0o170000));
    assert_eq!(parse_octal_str(""), None);
    assert_eq!(parse_octal_str("+"), None);
    assert_eq!(parse_octal_str("-1"), None);
    assert_eq!(parse_octal_str("8"), None);
    assert_eq!(parse_octal_str("1 "), None);
    assert_eq!(parse_octal_str("++1"), None);
    assert_eq!(
        parse_octal_str("7777777777777777777777"),
        usize::from_str_radix("7777777777777777777777", 8).ok()
    );
    assert_eq!(
        parse_octal_str("17777777777"),
        usize::from_str_radix("17777777777", 8).ok()
    );
    assert_eq!(parse_octal_str("77777777777777777777777777"), None);
}

#[test]
fn type_bits() {
    assert_eq!(resolve_mode(0o644, "a/b.txt"), 0o100644);
    assert_eq!(resolve_mode(0o644, "a/b/"), 0o040644);
    assert_eq!(resolve_mode(0o120644, "a/b/"), 0o120644);
    assert_eq!(resolve_mode(0o010000, "a"), 0o010000);
    assert_eq!(resolve_mode(0, "a"), 0o100000);
    assert_eq!(resolve_mode(0, "a/"), 0o040000);
    assert_eq!(resolve_mode(0o7777, "a"), 0o107777);
    assert_eq!(resolve_mode(0o200000, "a"), 0o300000);
    assert!(names_directory("a/"));
    assert!(names_directory("/"));
    assert!(!names_directory(""));
    assert!(!names_directory("a/b"));
}
