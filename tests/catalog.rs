use foro_tombi::catalog::{prepare_catalog, prepare_entry};
use foro_tombi::model::EmbeddedSchemaData;

fn entry(file_match: &'static str) -> EmbeddedSchemaData {
    EmbeddedSchemaData {
        url: "https://example.org/cargo.schema.json",
        file_match,
        content: "{\"type\":\"object\"}",
    }
}

#[test]
fn entry_file_match_is_read_from_json() {
    let d = prepare_entry(&entry("[\"Cargo.toml\", \"**/Cargo.toml\"]")).unwrap();
    assert_eq!(d.url, "https://example.org/cargo.schema.json");
    assert_eq!(d.file_match, vec!["Cargo.toml".to_string(), "**/Cargo.toml".to_string()]);
    assert_eq!(d.content, "{\"type\":\"object\"}");
}

#[test]
fn entry_with_bad_file_match_is_refused() {
    assert!(prepare_entry(&entry("Cargo.toml")).is_none());
    assert!(prepare_entry(&entry("[1, 2]")).is_none());
}

#[test]
fn catalog_is_prepared_in_order() {
    let ds = prepare_catalog(&[entry("[\"a.toml\"]"), entry("[]")]).unwrap();
    assert_eq!(ds.len(), 2);
    assert_eq!(ds[0].file_match, vec!["a.toml".to_string()]);
    assert!(ds[1].file_match.is_empty());
}

#[test]
fn catalog_error_names_first_bad_entry() {
    let e = prepare_catalog(&[entry("[]"), entry("{"), entry("nope")]).unwrap_err();
    assert_eq!(e.index, 1);
    assert_eq!(e.url, "https://example.org/cargo.schema.json");
}

#[test]
fn empty_catalog_is_fine() {
    assert!(prepare_catalog(&[]).unwrap().is_empty());
}
