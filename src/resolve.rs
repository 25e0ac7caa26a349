use vstd::prelude::*;
use crate::config::Config;

verus! {

/// The two files that may hold a configuration in a directory: the dedicated
/// `tombi.toml`, and `pyproject.toml`, which may embed one.
#[derive(PartialEq, Eq, Structural, Clone, Copy, Debug)]
pub enum ConfigFile {
    Primary,
    Manifest,
}

impl ConfigFile {
    pub fn file_name(&self) -> (r: &'static str)
        ensures
            *self == ConfigFile::Primary ==> r@ == "tombi.toml"@,
            *self == ConfigFile::Manifest ==> r@ == "pyproject.toml"@,
    {
        match self {
            ConfigFile::Primary => "tombi.toml",
            ConfigFile::Manifest => "pyproject.toml",
        }
    }
}

/// What reading one candidate file gave.
#[derive(Clone, Debug)]
pub enum Probe {
    /// There is no such file.
    Missing,
    /// The file exists but holds no configuration section.
    NoSection,
    /// The file holds a configuration, parsed.
    Parsed(Config),
    /// The file exists and could not be parsed; the parser's message.
    Malformed(String),
}

/// Why the search for a configuration failed.
#[derive(Clone, Debug)]
pub enum ConfigError {
    /// A candidate file exists and could not be parsed.
    Malformed { level: usize, file: ConfigFile, message: String },
    /// A dedicated configuration file was read as holding no configuration.
    PrimaryWithoutConfig { level: usize },
}

/// One step of the upward search. `level` counts directories from the start
/// of the search: 0 is the start directory, 1 its parent, and so on.
#[derive(Clone, Debug)]
pub enum SearchStep {
    /// Read this file in the directory at this level and report what it gave.
    Read { level: usize, file: ConfigFile },
    /// A configuration was found in this file.
    Found { config: Config, level: usize, file: ConfigFile },
    /// The root was passed without finding one: the default configuration holds.
    Default,
    /// The search failed.
    Failed(ConfigError),
}

/// The first step of a search over `levels` directories (the start
/// directory and its ancestors up to the root).
pub open spec fn start_spec(levels: nat) -> SearchStep {
    if levels == 0 {
        SearchStep::Default
    } else {
        SearchStep::Read { level: 0, file: ConfigFile::Primary }
    }
}

/// The step that follows reading `file` at `level`.
pub open spec fn next_spec(levels: nat, level: nat, file: ConfigFile, probe: Probe) -> SearchStep {
    match probe {
        Probe::Parsed(c) => SearchStep::Found { config: c, level: level as usize, file },
        Probe::Malformed(m) => SearchStep::Failed(
            ConfigError::Malformed { level: level as usize, file, message: m },
        ),
        Probe::NoSection if file == ConfigFile::Primary => SearchStep::Failed(
            ConfigError::PrimaryWithoutConfig { level: level as usize },
        ),
        _ => if file == ConfigFile::Primary {
            SearchStep::Read { level: level as usize, file: ConfigFile::Manifest }
        } else if level + 1 < levels {
            SearchStep::Read { level: (level + 1) as usize, file: ConfigFile::Primary }
        } else {
            SearchStep::Default
        },
    }
}

pub fn first_step(levels: usize) -> (r: SearchStep)
    ensures
        r == start_spec(levels as nat),
{
    if levels == 0 {
        SearchStep::Default
    } else {
        SearchStep::Read { level: 0, file: ConfigFile::Primary }
    }
}

/// Decides the next step from what reading `file` at `level` gave: a parsed
/// configuration ends the search; a missing dedicated file sends it to the
/// manifest of the same directory; a manifest that is missing or holds no
/// section sends it to the parent directory, or ends it at the root.
pub fn next_step(levels: usize, level: usize, file: ConfigFile, probe: Probe) -> (r: SearchStep)
    requires
        level < levels,
    ensures
        r == next_spec(levels as nat, level as nat, file, probe),
{
    match probe {
        Probe::Parsed(c) => SearchStep::Found { config: c, level, file },
        Probe::Malformed(m) => SearchStep::Failed(ConfigError::Malformed { level, file, message: m }),
        Probe::NoSection if file == ConfigFile::Primary => SearchStep::Failed(
            ConfigError::PrimaryWithoutConfig { level },
        ),
        _ => if file == ConfigFile::Primary {
            SearchStep::Read { level, file: ConfigFile::Manifest }
        } else if level + 1 < levels {
            SearchStep::Read { level: level + 1, file: ConfigFile::Primary }
        } else {
            SearchStep::Default
        },
    }
}

/// What the two candidate files of one directory hold.
#[derive(Clone, Debug)]
pub struct DirFiles {
    pub primary: Probe,
    pub manifest: Probe,
}

pub open spec fn probe_of(d: DirFiles, file: ConfigFile) -> Probe {
    match file {
        ConfigFile::Primary => d.primary,
        ConfigFile::Manifest => d.manifest,
    }
}

/// The outcome of the search over `dirs` (start directory first), begun at
/// directory `i`: the first directory, going up, whose dedicated file exists
/// or whose manifest holds a configuration decides it.
pub open spec fn resolve_from(dirs: Seq<DirFiles>, i: int) -> SearchStep
    decreases dirs.len() - i,
{
    if i < 0 || i >= dirs.len() {
        SearchStep::Default
    } else {
        match dirs[i].primary {
            Probe::Parsed(c) => SearchStep::Found { config: c, level: i as usize, file: ConfigFile::Primary },
            Probe::Malformed(m) => SearchStep::Failed(
                ConfigError::Malformed { level: i as usize, file: ConfigFile::Primary, message: m },
            ),
            Probe::NoSection => SearchStep::Failed(ConfigError::PrimaryWithoutConfig { level: i as usize }),
            Probe::Missing => match dirs[i].manifest {
                Probe::Parsed(c) => SearchStep::Found { config: c, level: i as usize, file: ConfigFile::Manifest },
                Probe::Malformed(m) => SearchStep::Failed(
                    ConfigError::Malformed { level: i as usize, file: ConfigFile::Manifest, message: m },
                ),
                _ => resolve_from(dirs, i + 1),
            },
        }
    }
}

pub open spec fn step_measure(levels: nat, s: SearchStep) -> int {
    match s {
        SearchStep::Read { level, file } => 2 * (levels - level) - (if file == ConfigFile::Manifest { 1int } else { 0int }),
        _ => 0,
    }
}

/// Runs the search to its end, answering each read from `dirs`.
pub open spec fn drive(dirs: Seq<DirFiles>, s: SearchStep) -> SearchStep
    decreases step_measure(dirs.len(), s),
{
    match s {
        SearchStep::Read { level, file } => if level < dirs.len() && dirs.len() <= usize::MAX {
            drive(dirs, next_spec(dirs.len(), level as nat, file, probe_of(dirs[level as int], file)))
        } else {
            s
        },
        _ => s,
    }
}

/// The outcome of a whole search over `dirs`, run step by step.
pub open spec fn search_outcome(dirs: Seq<DirFiles>) -> SearchStep {
    drive(dirs, start_spec(dirs.len()))
}

proof fn lemma_drive_from(dirs: Seq<DirFiles>, i: int)
    requires
        0 <= i < dirs.len(),
        dirs.len() <= usize::MAX,
    ensures
        drive(dirs, SearchStep::Read { level: i as usize, file: ConfigFile::Primary }) == resolve_from(dirs, i),
    decreases dirs.len() - i,
{
    let start = SearchStep::Read { level: i as usize, file: ConfigFile::Primary };
    let s1 = next_spec(dirs.len(), i as nat, ConfigFile::Primary, dirs[i].primary);
    assert(drive(dirs, start) == drive(dirs, s1));
    if dirs[i].primary is Missing {
        let s2 = next_spec(dirs.len(), i as nat, ConfigFile::Manifest, dirs[i].manifest);
        assert(drive(dirs, s1) == drive(dirs, s2));
        if i + 1 < dirs.len() {
            lemma_drive_from(dirs, i + 1);
        }
    }
}

/// Running the search step by step gives the outcome of the upward walk
/// over the directories' files.
pub proof fn search_matches_walk(dirs: Seq<DirFiles>)
    requires
        dirs.len() <= usize::MAX,
    ensures
        search_outcome(dirs) == resolve_from(dirs, 0),
{
    if dirs.len() > 0 {
        lemma_drive_from(dirs, 0);
    }
}

/// A directory that the search passes over: no dedicated file, and no
/// manifest with a configuration section.
pub open spec fn passes_over(d: DirFiles) -> bool {
    &&& d.primary is Missing
    &&& (d.manifest is Missing || d.manifest is NoSection)
}

proof fn lemma_skip(dirs: Seq<DirFiles>, i: int, j: int)
    requires
        0 <= i <= j <= dirs.len(),
        forall|k: int| i <= k < j ==> passes_over(#[trigger] dirs[k]),
    ensures
        resolve_from(dirs, i) == resolve_from(dirs, j),
    decreases j - i,
{
    if i < j {
        lemma_skip(dirs, i + 1, j);
    }
}

/// A dedicated configuration file at level `d` decides the search when every
/// closer directory is passed over: its configuration is returned with its
/// place, whatever manifests lie at that level or deeper.
pub proof fn primary_file_decides(dirs: Seq<DirFiles>, d: int)
    requires
        dirs.len() <= usize::MAX,
        0 <= d < dirs.len(),
        dirs[d].primary is Parsed,
        forall|k: int| 0 <= k < d ==> passes_over(#[trigger] dirs[k]),
    ensures
        search_outcome(dirs) == (SearchStep::Found {
            config: dirs[d].primary->Parsed_0,
            level: d as usize,
            file: ConfigFile::Primary,
        }),
{
    search_matches_walk(dirs);
    lemma_skip(dirs, 0, d);
}

/// With neither file holding a configuration anywhere from the start
/// directory up to the root, the search ends with the default configuration
/// and no place.
pub proof fn nothing_found_gives_default(dirs: Seq<DirFiles>)
    requires
        dirs.len() <= usize::MAX,
        forall|k: int| 0 <= k < dirs.len() ==> passes_over(#[trigger] dirs[k]),
    ensures
        search_outcome(dirs) == SearchStep::Default,
{
    search_matches_walk(dirs);
    lemma_skip(dirs, 0, dirs.len() as int);
}

} // verus!
