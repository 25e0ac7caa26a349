use foro_tombi::config::{Config, SchemaOptions, TomlVersion};
use foro_tombi::diagnostic::{Diagnostic, Level};
use foro_tombi::format::{Action, ConfigOrigin, Event, FormatError, FormatResult, FormatSession};
use foro_tombi::model::EmbeddedSchemaData;
use foro_tombi::resolve::{ConfigError, ConfigFile, Probe};

const PYPROJECT: &str = "\n[project]\nversion = \"0.1.0\"\ndescription = \"Add your description here\"\nreadme = \"README.md\"\nrequires-python = \">=3.13\"\ndependencies = []\nname = \"aaa\"\n\n    ";

fn catalog() -> Vec<EmbeddedSchemaData> {
    vec![EmbeddedSchemaData {
        url: "https://example.org/cargo.schema.json",
        file_match: "[\"Cargo.toml\"]",
        content: "{}",
    }]
}

// Drives a session over one directory with no configuration file, up to the
// point where the store has loaded the configuration.
fn ready(path: &str, content: &str, config: Option<Config>) -> (FormatSession, Action) {
    let (mut s, a) = FormatSession::new(path.to_string(), content.to_string(), 1, catalog());
    assert!(matches!(a, Action::ReadConfig { level: 0, file: ConfigFile::Primary }));
    let a = match config {
        Some(c) => s.step(Event::ConfigRead(Probe::Parsed(c))),
        None => {
            let a = s.step(Event::ConfigRead(Probe::Missing));
            assert!(matches!(a, Action::ReadConfig { level: 0, file: ConfigFile::Manifest }));
            s.step(Event::ConfigRead(Probe::Missing))
        }
    };
    match &a {
        Action::RegisterCatalog { schemas, store } => {
            assert_eq!(schemas.len(), 1);
            assert_eq!(schemas[0].file_match, vec!["Cargo.toml".to_string()]);
            assert_eq!(store.offline, Some(false));
        }
        other => panic!("unexpected action {:?}", other),
    }
    let a = s.step(Event::CatalogRegistered(Ok(())));
    assert!(matches!(a, Action::LoadSchemaConfig { .. }));
    let a = s.step(Event::SchemaConfigLoaded(Ok(())));
    (s, a)
}

#[test]
fn pyproject_without_config_is_handed_to_formatter() {
    let (_, a) = ready("pyproject.toml", PYPROJECT, None);
    match a {
        Action::Format { version, options, path, content } => {
            assert_eq!(version, TomlVersion::V1_0_0);
            assert_eq!(options.line_width, None);
            assert_eq!(path, "pyproject.toml");
            assert_eq!(content, PYPROJECT);
        }
        other => panic!("unexpected action {:?}", other),
    }
}

#[test]
fn cargo_manifest_formats_successfully() {
    let (mut s, a) = ready("Cargo.toml", "[package]\nname = \"x\"\n", None);
    assert!(matches!(a, Action::Format { .. }));
    let a = s.step(Event::Formatted(Ok("[package]\nname = \"x\"\n".to_string())));
    match a {
        Action::Finish(Ok(FormatResult::Success { formatted_content })) => {
            assert_eq!(formatted_content, "[package]\nname = \"x\"\n");
        }
        other => panic!("unexpected action {:?}", other),
    }
}

#[test]
fn excluded_cargo_manifest_is_ignored() {
    let mut c = Config::default();
    c.exclude = Some(vec!["*.toml".to_string()]);
    let (mut s, a) = ready("Cargo.toml", "[package]\n", Some(c));
    assert!(matches!(a, Action::Finish(Ok(FormatResult::Ignored))));
    // Nothing that follows asks for the formatter.
    let a = s.step(Event::Formatted(Ok(String::new())));
    assert!(matches!(a, Action::Finish(Err(FormatError::UnexpectedEvent))));
}

#[test]
fn invalid_exclude_pattern_is_a_hard_error() {
    let mut c = Config::default();
    c.exclude = Some(vec!["[".to_string()]);
    let (_, a) = ready("Cargo.toml", "", Some(c));
    assert!(matches!(a, Action::Finish(Err(FormatError::Pattern(_)))));
}

#[test]
fn formatter_failure_is_rendered_with_target_path() {
    let (mut s, _) = ready("Cargo.toml", "a = \"x\n", None);
    let ds = vec![Diagnostic {
        level: Level::Error,
        message: "unterminated string".to_string(),
        line: 1,
        column: 5,
        source_file: None,
    }];
    match s.step(Event::Formatted(Err(ds))) {
        Action::Finish(Ok(FormatResult::Error { error })) => {
            assert_eq!(error, "error: unterminated string\n  --> Cargo.toml:1:5\n");
            assert!(error.contains("Cargo.toml"));
        }
        other => panic!("unexpected action {:?}", other),
    }
}

#[test]
fn missing_schema_section_is_loaded_disabled() {
    let (mut s, _) = FormatSession::new("a.toml".to_string(), String::new(), 1, catalog());
    s.step(Event::ConfigRead(Probe::Parsed(Config::default())));
    match s.step(Event::CatalogRegistered(Ok(()))) {
        Action::LoadSchemaConfig { config, origin } => {
            let schema = config.schema.unwrap();
            assert_eq!(schema.enabled, Some(false));
            assert_eq!(schema.strict, None);
            assert_eq!(origin, Some(ConfigOrigin { level: 0, file: ConfigFile::Primary }));
        }
        other => panic!("unexpected action {:?}", other),
    }
}

#[test]
fn declared_schema_section_is_kept_and_sets_strictness() {
    let mut c = Config::default();
    c.schema = Some(SchemaOptions { enabled: Some(true), strict: Some(true), catalog: None });
    let (mut s, _) = FormatSession::new("a.toml".to_string(), String::new(), 1, catalog());
    match s.step(Event::ConfigRead(Probe::Parsed(c))) {
        Action::RegisterCatalog { store, .. } => assert_eq!(store.strict, Some(true)),
        other => panic!("unexpected action {:?}", other),
    }
    match s.step(Event::CatalogRegistered(Ok(()))) {
        Action::LoadSchemaConfig { config, .. } => assert_eq!(config.schema.unwrap().enabled, Some(true)),
        other => panic!("unexpected action {:?}", other),
    }
}

#[test]
fn malformed_config_stops_the_request() {
    let (mut s, _) = FormatSession::new("a.toml".to_string(), String::new(), 2, catalog());
    let a = s.step(Event::ConfigRead(Probe::Malformed("expected `=`".to_string())));
    assert!(matches!(
        a,
        Action::Finish(Err(FormatError::Config(ConfigError::Malformed { level: 0, file: ConfigFile::Primary, .. })))
    ));
}

#[test]
fn bad_catalog_entry_stops_the_request() {
    let bad = vec![EmbeddedSchemaData { url: "u", file_match: "not json", content: "" }];
    let (_, a) = FormatSession::new("a.toml".to_string(), String::new(), 0, bad);
    assert!(matches!(a, Action::Finish(Err(FormatError::Catalog(_)))));
}

#[test]
fn schema_load_failure_stops_the_request() {
    let (mut s, _) = FormatSession::new("a.toml".to_string(), String::new(), 0, catalog());
    s.step(Event::CatalogRegistered(Ok(())));
    let a = s.step(Event::SchemaConfigLoaded(Err("fetch failed".to_string())));
    match a {
        Action::Finish(Err(FormatError::SchemaLoad(m))) => assert_eq!(m, "fetch failed"),
        other => panic!("unexpected action {:?}", other),
    }
}

#[test]
fn registration_failure_stops_the_request() {
    let (mut s, _) = FormatSession::new("a.toml".to_string(), String::new(), 0, catalog());
    let a = s.step(Event::CatalogRegistered(Err("bad url".to_string())));
    assert!(matches!(a, Action::Finish(Err(FormatError::SchemaRegistration(_)))));
}

#[test]
fn out_of_order_event_is_refused() {
    let (mut s, _) = FormatSession::new("a.toml".to_string(), String::new(), 1, catalog());
    let a = s.step(Event::Formatted(Ok(String::new())));
    assert!(matches!(a, Action::Finish(Err(FormatError::UnexpectedEvent))));
}
