use cargo_toml::{Dependency as TomlDependency, Manifest};
use nana::catalog::{Component, ComponentCatalog, Dependency};
use nana::error::CliError;
use nana::manifest::{add_components, update_cargo_toml, ManifestDocument};

const TEMPLATE: &str = r#"[package]
name = "nana-template-axum"
version = "0.1.0"
edition = "2021"

[dependencies]
axum = "0.7"
tokio = { version = "1", features = ["full"] }
"#;

fn ids(names: &[&str]) -> Vec<String> {
    names.iter().map(|name| name.to_string()).collect()
}

fn component(id: &str, dependencies: Vec<Dependency>) -> Component {
    Component {
        id: id.to_string(),
        label: id.to_string(),
        hint: String::new(),
        dependencies,
    }
}

fn reparse(text: &str) -> Manifest {
    Manifest::from_slice(text.as_bytes()).unwrap()
}

fn detail_of<'a>(manifest: &'a Manifest, name: &str) -> &'a cargo_toml::DependencyDetail {
    match manifest.dependencies.get(name) {
        Some(TomlDependency::Detailed(detail)) => detail,
        other => panic!("{name} is not a detailed entry: {other:?}"),
    }
}

#[test]
fn jwt_adds_jsonwebtoken_at_version_nine() {
    let catalog = ComponentCatalog::builtin();
    let text = update_cargo_toml(TEMPLATE.as_bytes(), &catalog, &ids(&["jwt"])).unwrap();
    let manifest = reparse(&text);
    let detail = detail_of(&manifest, "jsonwebtoken");
    assert_eq!(detail.version.as_deref(), Some("9"));
    assert!(detail.features.is_empty());
    assert!(!detail.optional);
    assert!(detail.default_features);
    assert!(detail.git.is_none());
    assert!(detail.path.is_none());
    assert!(detail.registry.is_none());
}

#[test]
fn the_template_entries_stay() {
    let catalog = ComponentCatalog::builtin();
    let text = update_cargo_toml(TEMPLATE.as_bytes(), &catalog, &ids(&["jwt"])).unwrap();
    let manifest = reparse(&text);
    assert_eq!(manifest.dependencies.len(), 3);
    assert_eq!(
        manifest.dependencies.get("axum"),
        Some(&TomlDependency::Simple("0.7".to_string()))
    );
    let tokio = detail_of(&manifest, "tokio");
    assert_eq!(tokio.version.as_deref(), Some("1"));
    assert_eq!(tokio.features, vec!["full"]);
    assert_eq!(manifest.package.as_ref().unwrap().name, "nana-template-axum");
}

#[test]
fn sea_orm_comes_with_its_features() {
    let catalog = ComponentCatalog::builtin();
    let text = update_cargo_toml(TEMPLATE.as_bytes(), &catalog, &ids(&["sea-orm"])).unwrap();
    let manifest = reparse(&text);
    let detail = detail_of(&manifest, "sea-orm");
    assert_eq!(detail.version.as_deref(), Some("0.12"));
    assert_eq!(detail.features, vec!["tokio", "rustls", "sqlx-sqlite"]);
    assert!(!detail.optional);
}

#[test]
fn all_components_add_all_their_dependencies() {
    let catalog = ComponentCatalog::builtin();
    let chosen = ids(&["sea-orm", "jwt", "websocket"]);
    let text = update_cargo_toml(TEMPLATE.as_bytes(), &catalog, &chosen).unwrap();
    let manifest = reparse(&text);
    assert_eq!(manifest.dependencies.len(), 5);
    assert_eq!(detail_of(&manifest, "sea-orm").version.as_deref(), Some("0.12"));
    assert_eq!(detail_of(&manifest, "jsonwebtoken").version.as_deref(), Some("9"));
    assert_eq!(detail_of(&manifest, "tokio-tungstenite").version.as_deref(), Some("0.23.0"));
}

#[test]
fn no_components_leave_the_table_as_it_is() {
    let catalog = ComponentCatalog::builtin();
    let text = update_cargo_toml(TEMPLATE.as_bytes(), &catalog, &[]).unwrap();
    assert_eq!(reparse(&text), reparse(TEMPLATE));
}

#[test]
fn unknown_components_are_passed_over() {
    let catalog = ComponentCatalog::builtin();
    let with_unknown = ids(&["redis", "jwt", "kafka"]);
    let text = update_cargo_toml(TEMPLATE.as_bytes(), &catalog, &with_unknown).unwrap();
    let plain = update_cargo_toml(TEMPLATE.as_bytes(), &catalog, &ids(&["jwt"])).unwrap();
    assert_eq!(text, plain);
    let only_unknown = update_cargo_toml(TEMPLATE.as_bytes(), &catalog, &ids(&["redis"])).unwrap();
    assert_eq!(reparse(&only_unknown), reparse(TEMPLATE));
}

#[test]
fn merging_twice_is_merging_once() {
    let catalog = ComponentCatalog::builtin();
    let chosen = ids(&["sea-orm", "jwt"]);
    let once = update_cargo_toml(TEMPLATE.as_bytes(), &catalog, &chosen).unwrap();
    let twice = update_cargo_toml(once.as_bytes(), &catalog, &chosen).unwrap();
    assert_eq!(twice, once);
    assert_eq!(reparse(&twice).dependencies.len(), 4);
}

#[test]
fn a_component_named_twice_is_merged_once() {
    let catalog = ComponentCatalog::builtin();
    let doubled = update_cargo_toml(TEMPLATE.as_bytes(), &catalog, &ids(&["jwt", "jwt"])).unwrap();
    let single = update_cargo_toml(TEMPLATE.as_bytes(), &catalog, &ids(&["jwt"])).unwrap();
    assert_eq!(doubled, single);
}

#[test]
fn the_later_component_wins_a_shared_name() {
    let mut catalog = ComponentCatalog::new();
    catalog.push(component("old", vec![Dependency::from(("serde", "0.9"))]));
    catalog.push(component("new", vec![Dependency::from(("serde", "1.0"))]));
    let text = update_cargo_toml(TEMPLATE.as_bytes(), &catalog, &ids(&["old", "new"])).unwrap();
    assert_eq!(detail_of(&reparse(&text), "serde").version.as_deref(), Some("1.0"));
    let text = update_cargo_toml(TEMPLATE.as_bytes(), &catalog, &ids(&["new", "old"])).unwrap();
    assert_eq!(detail_of(&reparse(&text), "serde").version.as_deref(), Some("0.9"));
}

#[test]
fn the_later_declaration_within_a_component_wins() {
    let mut catalog = ComponentCatalog::new();
    catalog.push(component(
        "both",
        vec![Dependency::from(("serde", "0.9")), Dependency::from(("serde", "1.0"))],
    ));
    let text = update_cargo_toml(TEMPLATE.as_bytes(), &catalog, &ids(&["both"])).unwrap();
    let manifest = reparse(&text);
    assert_eq!(detail_of(&manifest, "serde").version.as_deref(), Some("1.0"));
    assert_eq!(manifest.dependencies.len(), 3);
}

#[test]
fn an_entry_of_the_template_is_fully_overwritten() {
    let mut catalog = ComponentCatalog::new();
    catalog.push(component(
        "runtime",
        vec![Dependency {
            name: "tokio".to_string(),
            version: "1.38".to_string(),
            features: vec!["rt".to_string()],
            optional: true,
        }],
    ));
    catalog.push(component("web", vec![Dependency::from(("axum", "0.8"))]));
    let text = update_cargo_toml(TEMPLATE.as_bytes(), &catalog, &ids(&["runtime", "web"])).unwrap();
    let manifest = reparse(&text);
    assert_eq!(manifest.dependencies.len(), 2);
    let tokio = detail_of(&manifest, "tokio");
    assert_eq!(tokio.version.as_deref(), Some("1.38"));
    assert_eq!(tokio.features, vec!["rt"]);
    assert!(tokio.optional);
    let axum = detail_of(&manifest, "axum");
    assert_eq!(axum.version.as_deref(), Some("0.8"));
    assert!(axum.features.is_empty());
}

#[test]
fn a_manifest_without_dependencies_gets_a_table() {
    let bare = "[package]\nname = \"bare\"\nversion = \"0.1.0\"\n";
    let catalog = ComponentCatalog::builtin();
    let text = update_cargo_toml(bare.as_bytes(), &catalog, &ids(&["websocket"])).unwrap();
    let manifest = reparse(&text);
    assert_eq!(manifest.dependencies.len(), 1);
    assert_eq!(detail_of(&manifest, "tokio-tungstenite").version.as_deref(), Some("0.23.0"));
}

#[test]
fn malformed_text_is_a_manifest_error() {
    let catalog = ComponentCatalog::builtin();
    let result = update_cargo_toml(b"[package\nname = ", &catalog, &ids(&["jwt"]));
    assert!(matches!(result, Err(CliError::ManifestError(_))));
}

#[test]
fn bytes_that_are_no_text_are_a_manifest_error() {
    let catalog = ComponentCatalog::builtin();
    let result = update_cargo_toml(&[0xff, 0xfe, 0x00], &catalog, &ids(&["jwt"]));
    assert_eq!(result, Err(CliError::ManifestError("utf8".to_string())));
}

#[test]
fn a_dependency_table_of_the_wrong_shape_is_a_manifest_error() {
    let catalog = ComponentCatalog::builtin();
    let wrong = "dependencies = 3\n\n[package]\nname = \"x\"\nversion = \"0.1.0\"\n";
    let result = update_cargo_toml(wrong.as_bytes(), &catalog, &ids(&["jwt"]));
    assert!(matches!(result, Err(CliError::ManifestError(_))));
}

#[test]
fn the_cause_of_a_parse_error_is_not_empty() {
    let catalog = ComponentCatalog::builtin();
    match update_cargo_toml(b"= nothing", &catalog, &[]) {
        Err(CliError::ManifestError(cause)) => assert!(!cause.is_empty()),
        other => panic!("expected a manifest error, got {other:?}"),
    }
}

#[test]
fn add_components_is_the_update_of_the_manifest() {
    let catalog = ComponentCatalog::builtin();
    let chosen = ids(&["jwt", "websocket"]);
    assert_eq!(
        add_components(TEMPLATE.as_bytes(), &catalog, &chosen),
        update_cargo_toml(TEMPLATE.as_bytes(), &catalog, &chosen)
    );
    let text = add_components(TEMPLATE.as_bytes(), &catalog, &chosen).unwrap();
    assert_eq!(reparse(&text).dependencies.len(), 4);
    assert!(matches!(
        add_components(b"[[[", &catalog, &chosen),
        Err(CliError::ManifestError(_))
    ));
}

#[test]
fn a_document_takes_one_dependency() {
    let mut document = ManifestDocument::parse(TEMPLATE.as_bytes()).unwrap();
    document.add_dependency(&Dependency {
        name: "uuid".to_string(),
        version: "1".to_string(),
        features: vec!["v4".to_string(), "serde".to_string()],
        optional: true,
    });
    let manifest = reparse(&document.render().unwrap());
    let uuid = detail_of(&manifest, "uuid");
    assert_eq!(uuid.version.as_deref(), Some("1"));
    assert_eq!(uuid.features, vec!["v4", "serde"]);
    assert!(uuid.optional);
    assert!(uuid.default_features);
    assert_eq!(manifest.dependencies.len(), 3);
}

#[test]
fn a_document_takes_a_component() {
    let mut document = ManifestDocument::parse(TEMPLATE.as_bytes()).unwrap();
    document.add_component(&component(
        "pair",
        vec![Dependency::from(("left", "1")), Dependency::from(("right", "2"))],
    ));
    let manifest = reparse(&document.render().unwrap());
    assert_eq!(detail_of(&manifest, "left").version.as_deref(), Some("1"));
    assert_eq!(detail_of(&manifest, "right").version.as_deref(), Some("2"));
}

#[test]
fn a_document_merges_components_in_order() {
    let first = component("first", vec![Dependency::from(("shared", "1"))]);
    let second = component("second", vec![Dependency::from(("shared", "2"))]);
    let mut document = ManifestDocument::parse(TEMPLATE.as_bytes()).unwrap();
    document.merge_dependencies(&vec![&first, &second]);
    let manifest = reparse(&document.render().unwrap());
    assert_eq!(detail_of(&manifest, "shared").version.as_deref(), Some("2"));
    let mut document = ManifestDocument::parse(TEMPLATE.as_bytes()).unwrap();
    document.merge_dependencies(&vec![&second, &first]);
    let manifest = reparse(&document.render().unwrap());
    assert_eq!(detail_of(&manifest, "shared").version.as_deref(), Some("1"));
}

#[test]
fn an_untouched_document_renders_to_the_same_manifest() {
    let document = ManifestDocument::parse(TEMPLATE.as_bytes()).unwrap();
    let text = document.render().unwrap();
    assert_eq!(reparse(&text), reparse(TEMPLATE));
    assert_ne!(text, "");
}

#[test]
fn parse_reports_a_manifest_error() {
    assert!(matches!(
        ManifestDocument::parse(b"name = [").map(|_| ()),
        Err(CliError::ManifestError(_))
    ));
}
