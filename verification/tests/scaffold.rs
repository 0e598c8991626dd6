use fyg::toml::FygToml;
use fyg::Fyg;

#[test]
fn source_root_uses_path_segments() {
    assert_eq!(Fyg::source_root_rel("com.example"), "src/kotlin/com/example");
    assert_eq!(Fyg::source_root_rel("single"), "src/kotlin/single");
}

#[test]
fn scaffold_plan_is_stable_across_calls() {
    let config = FygToml::new("my-app", "com.example");
    let first = (Fyg::source_root_rel(&config.project.group), config.to_toml_string());
    let second = (Fyg::source_root_rel(&config.project.group), config.to_toml_string());
    assert_eq!(first, second);
}
