use google_api_gen::manifest::{
    cargo_toml, dependency_line, pinned_dependencies, sibling_dependency, Api, Dependency,
    ManifestError, ManifestField, Standard,
};

fn api(cli_version: Option<&str>, lib_version: Option<&str>) -> Api {
    Api {
        crate_name: "foo".to_string(),
        lib_crate_name: "foo_lib".to_string(),
        lib_crate_version: lib_version.map(|v| v.to_string()),
        cli_crate_name: "foo".to_string(),
        cli_crate_version: cli_version.map(|v| v.to_string()),
        bin_name: "foo-cli".to_string(),
    }
}

fn standard() -> Standard {
    Standard { main_path: "src/main.rs".to_string() }
}

const EXPECTED: &str = r#"[package]
name = "foo"
version = "0.1.0"
authors = ["Sebastian Thiel <byronimo@gmail.com>"]
edition = "2018"
# for now, let's not even accidentally publish these
publish = false

[[bin]]
name = "foo-cli"
path = "src/main.rs"

[dependencies]
yup-oauth2 = "^3.1"
google_api_auth = { git = "https://github.com/octoml/generator", features = ["with-yup-oauth2"], branch = "octo_master" }
clap = "^2.33"
serde_json = "1.0.40"
dirs = "2.0"
google_cli_shared = { git = "https://github.com/octoml/generator", version = "0.1.0", branch = "octo_master" }
default-boxed = "0.1.6"
[dependencies.foo_lib]
path = "../lib"
version = "0.1.0"
"#;

#[test]
fn manifest_for_foo_has_package_bin_and_sibling_blocks() {
    let text = cargo_toml(&api(Some("0.1.0"), Some("0.1.0")), &standard()).unwrap();
    assert!(text.contains("[package]\nname = \"foo\"\nversion = \"0.1.0\"\n"));
    assert!(text.contains("[[bin]]\nname = \"foo-cli\"\npath = \"src/main.rs\"\n"));
    assert!(text.contains("[dependencies.foo_lib]\npath = \"../lib\"\nversion = \"0.1.0\"\n"));
    assert_eq!(text, EXPECTED);
}

#[test]
fn manifest_uses_each_version_in_its_place() {
    let text = cargo_toml(&api(Some("2.3.4"), Some("1.0.0")), &standard()).unwrap();
    assert!(text.contains("name = \"foo\"\nversion = \"2.3.4\"\n"));
    assert!(text.ends_with("[dependencies.foo_lib]\npath = \"../lib\"\nversion = \"1.0.0\"\n"));
}

#[test]
fn manifest_is_the_same_on_every_call() {
    let a = cargo_toml(&api(Some("0.1.0"), Some("0.1.0")), &standard());
    let b = cargo_toml(&api(Some("0.1.0"), Some("0.1.0")), &standard());
    assert_eq!(a, b);
}

#[test]
fn missing_cli_version_is_reported() {
    assert_eq!(
        cargo_toml(&api(None, Some("0.1.0")), &standard()),
        Err(ManifestError::MissingField(ManifestField::CliCrateVersion))
    );
}

#[test]
fn missing_lib_version_is_reported() {
    assert_eq!(
        cargo_toml(&api(Some("0.1.0"), None), &standard()),
        Err(ManifestError::MissingField(ManifestField::LibCrateVersion))
    );
}

#[test]
fn missing_cli_version_is_reported_before_lib_version() {
    assert_eq!(
        cargo_toml(&api(None, None), &standard()),
        Err(ManifestError::MissingField(ManifestField::CliCrateVersion))
    );
}

#[test]
fn each_dependency_is_declared_once() {
    let text = cargo_toml(&api(Some("0.1.0"), Some("0.1.0")), &standard()).unwrap();
    let section = &text[text.find("[dependencies]").unwrap()..];
    for name in [
        "yup-oauth2",
        "google_api_auth",
        "clap",
        "serde_json",
        "dirs",
        "google_cli_shared",
        "default-boxed",
    ] {
        let line_start = format!("\n{} = ", name);
        assert_eq!(section.matches(line_start.as_str()).count(), 1, "{}", name);
    }
    assert_eq!(section.lines().filter(|l| l.contains(" = ")).count(), 7 + 2);
    assert_eq!(text.matches("[dependencies.").count(), 1);
    assert_eq!(text.matches("[dependencies]").count(), 1);
}

#[test]
fn pinned_dependencies_are_listed_in_order() {
    let names: Vec<String> = pinned_dependencies().into_iter().map(|d| d.name).collect();
    assert_eq!(
        names,
        vec![
            "yup-oauth2",
            "google_api_auth",
            "clap",
            "serde_json",
            "dirs",
            "google_cli_shared",
            "default-boxed"
        ]
    );
}

#[test]
fn dependency_line_text() {
    let dep = Dependency { name: "clap".to_string(), requirement: "\"^2.33\"".to_string() };
    assert_eq!(dependency_line(&dep), "\nclap = \"^2.33\"");
}

#[test]
fn sibling_dependency_text() {
    assert_eq!(
        sibling_dependency("bar", "9.9.9"),
        "\n[dependencies.bar]\npath = \"../lib\"\nversion = \"9.9.9\"\n"
    );
}

#[test]
fn sibling_dependency_with_empty_fields() {
    assert_eq!(sibling_dependency("", ""), "\n[dependencies.]\npath = \"../lib\"\nversion = \"\"\n");
}

#[test]
fn naming_from_discovery_document() {
    let api = Api::from_discovery("drive", "v3");
    assert_eq!(api.crate_name, "drivev3");
    assert_eq!(api.lib_crate_name, "google_drivev3");
    assert_eq!(api.cli_crate_name, "google_drivev3_cli");
    assert_eq!(api.bin_name, "drivev3");
    assert_eq!(api.lib_crate_version.as_deref(), Some("0.1.0"));
    assert_eq!(api.cli_crate_version.as_deref(), Some("0.1.0"));
}

#[test]
fn manifest_from_discovery_naming() {
    let api = Api::from_discovery("drive", "v3");
    let text = cargo_toml(&api, &standard()).unwrap();
    assert!(text.starts_with("[package]\nname = \"google_drivev3_cli\"\nversion = \"0.1.0\"\n"));
    assert!(text.contains("[[bin]]\nname = \"drivev3\"\n"));
    assert!(text.ends_with("[dependencies.google_drivev3]\npath = \"../lib\"\nversion = \"0.1.0\"\n"));
}
