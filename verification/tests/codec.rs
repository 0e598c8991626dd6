use fyg::config::{DependencyValue, RepositoryConfig, CustomRepository, DependencyConfig,
    BuildConfig, TargetsConfig, JvmTarget, TargetEnabled, NativeConfig, NativeBinaryConfig,
    TestConfig};
use fyg::toml::FygToml;
use fyg::value::{FormatError, SectionPath};
use fyg::FygBinaryType;

#[test]
fn test_roundtrip_serialization() {
    let config = FygToml::new("test-app", "org.test");
    let toml_str = config.to_toml_string();
    let parsed = FygToml::from_str(&toml_str).expect("Failed to parse back");

    assert_eq!(parsed.project.name, config.project.name);
    assert_eq!(parsed.project.group, config.project.group);
}

#[test]
fn test_parse_fyg_toml() {
    let text = "[project]\nname = \"dropbear\"\ngroup = \"com.dropbear\"\nversion = \"1.0.0-SNAPSHOT\"\n\n[build]\nmultiplatform = true\nlanguages = [\"kotlin\", \"java\"]\n\n[targets]\n\n[targets.jvm]\nenabled = true\ntarget = \"17\"\n";
    let config = FygToml::from_str(text).expect("Failed to parse fyg.toml");

    assert_eq!(config.project.name, "dropbear");
    assert_eq!(config.project.group, "com.dropbear");
    assert_eq!(config.project.version, "1.0.0-SNAPSHOT");

    let build = config.build.expect("build section should exist");
    assert_eq!(build.multiplatform, Some(true));
    assert_eq!(build.languages, Some(vec!["kotlin".to_string(), "java".to_string()]));

    let targets = config.targets.expect("targets section should exist");
    let jvm = targets.jvm.expect("jvm target should exist");
    assert!(jvm.enabled);
    assert_eq!(jvm.target, Some("17".to_string()));
}

fn full_manifest() -> FygToml {
    let mut config = FygToml::new("full-app", "io.full");
    config.project.authors = Some(vec!["ada".to_string(), "grace".to_string()]);
    config.project.description = Some("a demo".to_string());
    config.build = Some(BuildConfig {
        multiplatform: Some(true),
        languages: Some(vec!["kotlin".to_string(), "java".to_string()]),
    });
    config.targets = Some(TargetsConfig {
        jvm: Some(JvmTarget { enabled: true, target: Some("17".to_string()) }),
        ios_arm64: Some(TargetEnabled { enabled: true }),
        ios_x64: None,
        ios_simulator_arm64: Some(TargetEnabled { enabled: false }),
        linux_x64: Some(TargetEnabled { enabled: true }),
        macos_arm64: None,
        windows_x64: Some(TargetEnabled { enabled: true }),
        native: Some(NativeConfig {
            binary: Some(NativeBinaryConfig {
                binary_type: FygBinaryType::SharedLib,
                base_name: Some("fullapp".to_string()),
            }),
        }),
    });
    config.dependencies = Some(fyg::config::DependenciesConfig {
        common: Some(vec![
            ("kotlinx-coroutines".to_string(), DependencyValue::Version("1.8.0".to_string())),
            (
                "local-lib".to_string(),
                DependencyValue::Complex(DependencyConfig {
                    path: Some("../lib".to_string()),
                    workspace: Some(true),
                    version: None,
                }),
            ),
        ]),
        jvm: None,
        test: Some(vec![(
            "kotest".to_string(),
            DependencyValue::Version("5.9.0".to_string()),
        )]),
    });
    config.test = Some(TestConfig { framework: Some("kotest".to_string()) });
    config.repositories = Some(vec![
        ("mavenCentral".to_string(), RepositoryConfig::Enabled(true)),
        (
            "corp".to_string(),
            RepositoryConfig::Custom(CustomRepository {
                repo_type: "maven".to_string(),
                url: "https://repo.example.com".to_string(),
            }),
        ),
    ]);
    config
}

#[test]
fn roundtrip_full_manifest() {
    let config = full_manifest();
    let text = config.to_toml_string();
    let parsed = FygToml::from_str(&text).expect("full manifest should parse back");
    assert_eq!(parsed, config);
}

#[test]
fn absent_sections_stay_absent() {
    let config = FygToml::new("bare", "org.bare");
    let text = config.to_toml_string();
    let parsed = FygToml::from_str(&text).unwrap();
    assert!(parsed.build.is_none());
    assert!(parsed.targets.is_none());
    assert!(parsed.dependencies.is_none());
    assert!(parsed.test.is_none());
    assert!(parsed.repositories.is_none());
}

#[test]
fn dependency_scalar_shape() {
    let text = "[project]\nname = \"a\"\ngroup = \"b\"\nversion = \"1\"\n[dependencies]\n[dependencies.common]\nfoo = \"1.2.3\"\n";
    let config = FygToml::from_str(text).unwrap();
    let common = config.dependencies.unwrap().common.unwrap();
    assert_eq!(common.len(), 1);
    assert_eq!(common[0].0, "foo");
    assert_eq!(common[0].1, DependencyValue::Version("1.2.3".to_string()));
}

#[test]
fn dependency_structured_shape() {
    let text = "[project]\nname = \"a\"\ngroup = \"b\"\nversion = \"1\"\n[dependencies]\n[dependencies.common]\nbar = { path = \"../lib\" }\n";
    let config = FygToml::from_str(text).unwrap();
    let common = config.dependencies.unwrap().common.unwrap();
    assert_eq!(
        common[0].1,
        DependencyValue::Complex(DependencyConfig {
            path: Some("../lib".to_string()),
            workspace: None,
            version: None,
        })
    );
}

#[test]
fn dependency_list_shape_is_rejected() {
    let text = "[project]\nname = \"a\"\ngroup = \"b\"\nversion = \"1\"\n[dependencies]\n[dependencies.common]\nbad = [\"1.2.3\"]\n";
    let err = FygToml::from_str(text).unwrap_err();
    assert_eq!(
        err,
        FormatError::WrongShape {
            section: SectionPath::DependenciesCommon,
            key: "bad".to_string()
        }
    );
}

#[test]
fn repository_flag_shape() {
    let text = "[project]\nname = \"a\"\ngroup = \"b\"\nversion = \"1\"\n[repositories]\nmavenCentral = true\n";
    let config = FygToml::from_str(text).unwrap();
    let repos = config.repositories.unwrap();
    assert_eq!(repos[0], ("mavenCentral".to_string(), RepositoryConfig::Enabled(true)));
}

#[test]
fn repository_structured_shape() {
    let text = "[project]\nname = \"a\"\ngroup = \"b\"\nversion = \"1\"\n[repositories]\ncorp = { type = \"maven\", url = \"https://repo.example.com\" }\n";
    let config = FygToml::from_str(text).unwrap();
    let repos = config.repositories.unwrap();
    assert_eq!(
        repos[0].1,
        RepositoryConfig::Custom(CustomRepository {
            repo_type: "maven".to_string(),
            url: "https://repo.example.com".to_string(),
        })
    );
}

#[test]
fn missing_required_fields_are_reported() {
    let missing_name = "[project]\ngroup = \"b\"\nversion = \"1\"\n";
    assert_eq!(
        FygToml::from_str(missing_name).unwrap_err(),
        FormatError::MissingField { section: SectionPath::Project, key: "name".to_string() }
    );
    let missing_group = "[project]\nname = \"a\"\nversion = \"1\"\n";
    assert_eq!(
        FygToml::from_str(missing_group).unwrap_err(),
        FormatError::MissingField { section: SectionPath::Project, key: "group".to_string() }
    );
    let missing_version = "[project]\nname = \"a\"\ngroup = \"b\"\n";
    assert_eq!(
        FygToml::from_str(missing_version).unwrap_err(),
        FormatError::MissingField { section: SectionPath::Project, key: "version".to_string() }
    );
}

#[test]
fn unknown_keys_in_simple_slots_are_rejected() {
    let slots = [
        ("targets.ios-arm64", SectionPath::TargetsIosArm64),
        ("targets.ios-x64", SectionPath::TargetsIosX64),
        ("targets.ios-simulator-arm64", SectionPath::TargetsIosSimulatorArm64),
        ("targets.linux-x64", SectionPath::TargetsLinuxX64),
        ("targets.macos-arm64", SectionPath::TargetsMacosArm64),
        ("targets.windows-x64", SectionPath::TargetsWindowsX64),
    ];
    for (name, section) in slots {
        let text = format!(
            "[project]\nname = \"a\"\ngroup = \"b\"\nversion = \"1\"\n[targets]\n[{}]\nenabled = true\nbogus = true\n",
            name
        );
        assert_eq!(
            FygToml::from_str(&text).unwrap_err(),
            FormatError::UnknownKey { section, key: "bogus".to_string() },
            "slot {}",
            name
        );
    }
}

#[test]
fn unknown_target_section_is_rejected() {
    let text = "[project]\nname = \"a\"\ngroup = \"b\"\nversion = \"1\"\n[targets]\n[targets.bogus]\nenabled = true\n";
    assert_eq!(
        FygToml::from_str(text).unwrap_err(),
        FormatError::UnknownSection { line: 6 }
    );
}

#[test]
fn unknown_key_under_targets_is_rejected() {
    let text = "[project]\nname = \"a\"\ngroup = \"b\"\nversion = \"1\"\n[targets]\nbogus = true\n";
    assert_eq!(
        FygToml::from_str(text).unwrap_err(),
        FormatError::UnknownKey { section: SectionPath::Targets, key: "bogus".to_string() }
    );
}
