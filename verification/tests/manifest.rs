use fyg::toml::FygToml;
use fyg::{Fyg, FygError};

#[test]
fn test_create_new_fyg_toml() {
    let config = FygToml::new("my-app", "com.example");

    assert_eq!(config.project.name, "my-app");
    assert_eq!(config.project.group, "com.example");
    assert_eq!(config.project.version, "1.0.0-SNAPSHOT");
}

#[test]
fn fresh_manifest_has_no_optional_sections() {
    let config = FygToml::new("demo", "org.demo");
    assert!(config.project.authors.is_none());
    assert!(config.project.description.is_none());
    assert!(config.build.is_none());
    assert!(config.targets.is_none());
    assert!(config.dependencies.is_none());
    assert!(config.test.is_none());
    assert!(config.repositories.is_none());
}

#[test]
fn build_reports_unimplemented() {
    assert_eq!(Fyg::build("fyg.toml"), Err(FygError::Unimplemented));
}

#[test]
fn binary_kind_external_names() {
    assert_eq!(fyg::FygBinaryType::Executable.name(), "executable");
    assert_eq!(fyg::FygBinaryType::Test.name(), "test");
    assert_eq!(fyg::FygBinaryType::SharedLib.name(), "sharedLib");
    assert_eq!(fyg::FygBinaryType::StaticLib.name(), "staticLib");
    assert_eq!(fyg::FygBinaryType::Framework.name(), "framework");
}
