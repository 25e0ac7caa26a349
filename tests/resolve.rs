use foro_tombi::config::Config;
use foro_tombi::resolve::{first_step, next_step, ConfigError, ConfigFile, Probe, SearchStep};

fn parsed() -> Probe {
    let mut c = Config::default();
    c.exclude = Some(vec!["*.lock".to_string()]);
    Probe::Parsed(c)
}

#[test]
fn search_starts_at_primary_file_of_start_directory() {
    assert!(matches!(first_step(3), SearchStep::Read { level: 0, file: ConfigFile::Primary }));
}

#[test]
fn search_without_directories_gives_default() {
    assert!(matches!(first_step(0), SearchStep::Default));
}

#[test]
fn missing_primary_moves_to_manifest() {
    let s = next_step(3, 1, ConfigFile::Primary, Probe::Missing);
    assert!(matches!(s, SearchStep::Read { level: 1, file: ConfigFile::Manifest }));
}

#[test]
fn manifest_without_section_moves_to_parent() {
    let s = next_step(3, 1, ConfigFile::Manifest, Probe::NoSection);
    assert!(matches!(s, SearchStep::Read { level: 2, file: ConfigFile::Primary }));
}

#[test]
fn missing_manifest_at_root_gives_default() {
    let s = next_step(3, 2, ConfigFile::Manifest, Probe::Missing);
    assert!(matches!(s, SearchStep::Default));
}

#[test]
fn parsed_primary_is_found_with_its_place() {
    match next_step(4, 2, ConfigFile::Primary, parsed()) {
        SearchStep::Found { config, level, file } => {
            assert_eq!(level, 2);
            assert_eq!(file, ConfigFile::Primary);
            assert_eq!(config.exclude, Some(vec!["*.lock".to_string()]));
        }
        other => panic!("unexpected step {:?}", other),
    }
}

#[test]
fn parsed_manifest_is_found() {
    let s = next_step(4, 0, ConfigFile::Manifest, parsed());
    assert!(matches!(s, SearchStep::Found { level: 0, file: ConfigFile::Manifest, .. }));
}

#[test]
fn malformed_file_fails_the_search() {
    match next_step(2, 0, ConfigFile::Manifest, Probe::Malformed("bad".to_string())) {
        SearchStep::Failed(ConfigError::Malformed { level, file, message }) => {
            assert_eq!(level, 0);
            assert_eq!(file, ConfigFile::Manifest);
            assert_eq!(message, "bad");
        }
        other => panic!("unexpected step {:?}", other),
    }
}

#[test]
fn primary_without_section_fails_the_search() {
    let s = next_step(2, 1, ConfigFile::Primary, Probe::NoSection);
    assert!(matches!(s, SearchStep::Failed(ConfigError::PrimaryWithoutConfig { level: 1 })));
}

// A walk over three directories: the start directory has a manifest without
// a section, the parent a dedicated file; a deeper manifest is never read.
#[test]
fn primary_file_at_depth_one_wins() {
    let mut s = first_step(3);
    let answers = vec![
        (0usize, ConfigFile::Primary, Probe::Missing),
        (0usize, ConfigFile::Manifest, Probe::NoSection),
        (1usize, ConfigFile::Primary, parsed()),
    ];
    for (level, file, probe) in answers {
        match s {
            SearchStep::Read { level: l, file: f } => {
                assert_eq!((l, f), (level, file));
                s = next_step(3, l, f, probe);
            }
            other => panic!("unexpected step {:?}", other),
        }
    }
    assert!(matches!(s, SearchStep::Found { level: 1, file: ConfigFile::Primary, .. }));
}

#[test]
fn walk_without_files_ends_in_default() {
    let mut s = first_step(2);
    let mut reads = 0;
    while let SearchStep::Read { level, file } = s {
        reads += 1;
        s = next_step(2, level, file, Probe::Missing);
    }
    assert_eq!(reads, 4);
    assert!(matches!(s, SearchStep::Default));
}

#[test]
fn file_names_are_the_known_ones() {
    assert_eq!(ConfigFile::Primary.file_name(), "tombi.toml");
    assert_eq!(ConfigFile::Manifest.file_name(), "pyproject.toml");
}
