use vstd::prelude::*;
use crate::catalog::{CatalogError, json_string_array, prepare_catalog, prepared_as};
use crate::config::{
    Config, FormatOptions, copies, StoreOptions, TomlVersion, default_config, disabled_schema,
    effective_config, format_options_of, store_options_of, toml_version_of,
};
use crate::diagnostic::{
    Diagnostic, attribute_all, contains, lemma_rendered_attribution, render, rendered_for,
    rendered_names_file,
};
use crate::exclude::{PatternCompileError, all_compile, excluded_by, first_invalid, is_excluded};
use crate::model::{EmbeddedSchemaData, SchemaData};
use crate::resolve::{
    ConfigError, ConfigFile, Probe, SearchStep, first_step, next_spec, next_step, start_spec,
};

verus! {

/// What one formatting request came to.
#[derive(Debug)]
pub enum FormatResult {
    /// The target was formatted; the new text.
    Success { formatted_content: String },
    /// The target matched an exclusion pattern and was left alone.
    Ignored,
    /// The formatter reported problems; their rendered text.
    Error { error: String },
}

/// Why a formatting request could not be carried out at all.
#[derive(Debug)]
pub enum FormatError {
    Config(ConfigError),
    Catalog(CatalogError),
    SchemaRegistration(String),
    SchemaLoad(String),
    Pattern(PatternCompileError),
    /// An event arrived that the session was not waiting for.
    UnexpectedEvent,
}

/// Where the configuration in effect came from: which file, at which level
/// above the start directory.
#[derive(PartialEq, Eq, Structural, Clone, Copy, Debug)]
pub struct ConfigOrigin {
    pub level: usize,
    pub file: ConfigFile,
}

/// Where a session stands.
#[derive(Debug)]
pub enum Phase {
    /// Looking for the configuration over `levels` directories.
    Searching { levels: usize, level: usize, file: ConfigFile },
    /// Waiting for the built-in catalog to be associated with the store.
    Registering { config: Config, origin: Option<ConfigOrigin> },
    /// Waiting for the store to load the configuration's schema settings.
    Loading { config: Config },
    /// Waiting for the formatter.
    Formatting,
    Finished,
}

/// What the caller is to do next.
#[derive(Debug)]
pub enum Action {
    /// Read this candidate configuration file and report it with `Event::ConfigRead`.
    ReadConfig { level: usize, file: ConfigFile },
    /// Build a schema store with these options and associate these schemas
    /// with it, without fetching; report with `Event::CatalogRegistered`.
    RegisterCatalog { schemas: Vec<SchemaData>, store: StoreOptions },
    /// Let the store load this configuration's schema settings; report with
    /// `Event::SchemaConfigLoaded`.
    LoadSchemaConfig { config: Config, origin: Option<ConfigOrigin> },
    /// Run the formatter on the target with the store; report with `Event::Formatted`.
    Format { version: TomlVersion, options: FormatOptions, path: String, content: String },
    /// The request is over.
    Finish(Result<FormatResult, FormatError>),
}

/// What came of the last action.
#[derive(Debug)]
pub enum Event {
    ConfigRead(Probe),
    CatalogRegistered(Result<(), String>),
    SchemaConfigLoaded(Result<(), String>),
    Formatted(Result<String, Vec<Diagnostic>>),
}

/// One formatting request, driven one event at a time. The caller performs
/// each action and hands back what came of it; the session makes every
/// decision.
pub struct FormatSession {
    target_path: String,
    target_content: String,
    catalog: Vec<EmbeddedSchemaData>,
    phase: Phase,
}

impl FormatSession {
    pub closed spec fn target_path(&self) -> Seq<char> {
        self.target_path@
    }

    pub closed spec fn target_content(&self) -> Seq<char> {
        self.target_content@
    }

    pub closed spec fn catalog(&self) -> Seq<EmbeddedSchemaData> {
        self.catalog@
    }

    pub closed spec fn phase(&self) -> Phase {
        self.phase
    }
}

pub open spec fn catalog_reads(catalog: Seq<EmbeddedSchemaData>) -> bool {
    forall|i: int| 0 <= i < catalog.len() ==> (json_string_array(#[trigger] catalog[i].file_match@) is Some)
}

pub open spec fn finishes(t: FormatSession, a: Action, outcome: Result<FormatResult, FormatError>) -> bool {
    t.phase() is Finished && a == Action::Finish(outcome)
}

/// With a configuration in hand: the whole built-in catalog is prepared and
/// handed over for registration, whatever the configuration says of schemas.
pub open spec fn enters_registration(
    s: FormatSession,
    config: Config,
    origin: Option<ConfigOrigin>,
    t: FormatSession,
    a: Action,
) -> bool {
    if catalog_reads(s.catalog()) {
        &&& t.phase() == Phase::Registering { config, origin }
        &&& a matches Action::RegisterCatalog { schemas, store }
        &&& store == store_options_of(config)
        &&& schemas@.len() == s.catalog().len()
        &&& forall|i: int| 0 <= i < schemas@.len() ==> prepared_as(#[trigger] schemas@[i], s.catalog()[i])
    } else {
        &&& t.phase() is Finished
        &&& a matches Action::Finish(Err(FormatError::Catalog(e)))
        &&& e.index < s.catalog().len()
        &&& json_string_array(s.catalog()[e.index as int].file_match@) is None
        &&& e.url@ == s.catalog()[e.index as int].url@
    }
}

/// The formatter is called on the target, with the configuration's dialect
/// and format options.
pub open spec fn enters_formatting(s: FormatSession, config: Config, t: FormatSession, a: Action) -> bool {
    &&& t.phase() is Formatting
    &&& a matches Action::Format { version, options, path, content }
    &&& version == toml_version_of(config)
    &&& options == format_options_of(config)
    &&& path@ == s.target_path()
    &&& content@ == s.target_content()
}

/// Once the store is ready: the exclusion patterns decide before any
/// formatting; an excluded target is ignored.
pub open spec fn after_loading(s: FormatSession, config: Config, t: FormatSession, a: Action) -> bool {
    match config.exclude {
        None => enters_formatting(s, config, t, a),
        Some(ps) => if !all_compile(ps@) {
            &&& t.phase() is Finished
            &&& a matches Action::Finish(Err(FormatError::Pattern(e)))
            &&& first_invalid(ps@, e.index as int)
            &&& e.pattern@ == ps@[e.index as int]@
        } else if excluded_by(ps@, s.target_path()) {
            finishes(t, a, Ok(FormatResult::Ignored))
        } else {
            enters_formatting(s, config, t, a)
        },
    }
}

/// Every move of a session: from `s`, on event `e`, to `t`, doing `a`.
pub open spec fn transition(s: FormatSession, e: Event, t: FormatSession, a: Action) -> bool {
    match s.phase() {
        Phase::Searching { levels, level, file } => match e {
            Event::ConfigRead(probe) => if level < levels {
                match next_spec(levels as nat, level as nat, file, probe) {
                    SearchStep::Read { level: l, file: f } => {
                        &&& t.phase() == Phase::Searching { levels, level: l, file: f }
                        &&& a == Action::ReadConfig { level: l, file: f }
                    },
                    SearchStep::Found { config, level: l, file: f } => enters_registration(
                        s,
                        config,
                        Some(ConfigOrigin { level: l, file: f }),
                        t,
                        a,
                    ),
                    SearchStep::Default => enters_registration(s, default_config(), None, t, a),
                    SearchStep::Failed(err) => finishes(t, a, Err(FormatError::Config(err))),
                }
            } else {
                finishes(t, a, Err(FormatError::UnexpectedEvent))
            },
            _ => finishes(t, a, Err(FormatError::UnexpectedEvent)),
        },
        Phase::Registering { config, origin } => match e {
            Event::CatalogRegistered(Ok(_)) => {
                &&& t.phase() == Phase::Loading { config: effective_config(config) }
                &&& a matches Action::LoadSchemaConfig { config: c, origin: o }
                &&& copies(c, effective_config(config))
                &&& o == origin
            },
            Event::CatalogRegistered(Err(m)) => finishes(t, a, Err(FormatError::SchemaRegistration(m))),
            _ => finishes(t, a, Err(FormatError::UnexpectedEvent)),
        },
        Phase::Loading { config } => match e {
            Event::SchemaConfigLoaded(Ok(_)) => after_loading(s, config, t, a),
            Event::SchemaConfigLoaded(Err(m)) => finishes(t, a, Err(FormatError::SchemaLoad(m))),
            _ => finishes(t, a, Err(FormatError::UnexpectedEvent)),
        },
        Phase::Formatting => match e {
            Event::Formatted(Ok(text)) => finishes(t, a, Ok(FormatResult::Success { formatted_content: text })),
            Event::Formatted(Err(ds)) => {
                &&& t.phase() is Finished
                &&& a matches Action::Finish(Ok(FormatResult::Error { error }))
                &&& error@ == rendered_for(ds@, s.target_path())
            },
            _ => finishes(t, a, Err(FormatError::UnexpectedEvent)),
        },
        Phase::Finished => finishes(t, a, Err(FormatError::UnexpectedEvent)),
    }
}

pub open spec fn same_request(s: FormatSession, t: FormatSession) -> bool {
    &&& t.target_path() == s.target_path()
    &&& t.target_content() == s.target_content()
    &&& t.catalog() == s.catalog()
}

impl FormatSession {
    fn enter_registration(&mut self, config: Config, origin: Option<ConfigOrigin>) -> (r: Action)
        ensures
            same_request(*old(self), *final(self)),
            enters_registration(*old(self), config, origin, *final(self), r),
    {
        match prepare_catalog(self.catalog.as_slice()) {
            Ok(schemas) => {
                let store = config.store_options();
                self.phase = Phase::Registering { config, origin };
                Action::RegisterCatalog { schemas, store }
            },
            Err(e) => {
                self.phase = Phase::Finished;
                Action::Finish(Err(FormatError::Catalog(e)))
            },
        }
    }

    /// Starts a request to format `target_content`, the text of the file at
    /// `target_path`. `levels` counts the directories that the configuration
    /// search may visit: the start directory and each of its ancestors up to
    /// the root. `catalog` holds the built-in schemas.
    pub fn new(
        target_path: String,
        target_content: String,
        levels: usize,
        catalog: Vec<EmbeddedSchemaData>,
    ) -> (r: (FormatSession, Action))
        ensures
            r.0.target_path() == target_path@,
            r.0.target_content() == target_content@,
            r.0.catalog() == catalog@,
            match start_spec(levels as nat) {
                SearchStep::Read { level, file } => {
                    &&& r.0.phase() == Phase::Searching { levels, level, file }
                    &&& r.1 == Action::ReadConfig { level, file }
                },
                _ => enters_registration(r.0, default_config(), None, r.0, r.1),
            },
    {
        let mut s = FormatSession { target_path, target_content, catalog, phase: Phase::Finished };
        match first_step(levels) {
            SearchStep::Read { level, file } => {
                s.phase = Phase::Searching { levels, level, file };
                (s, Action::ReadConfig { level, file })
            },
            _ => {
                let a = s.enter_registration(Config::default(), None);
                (s, a)
            },
        }
    }
}

impl FormatSession {
    fn finish(&mut self, outcome: Result<FormatResult, FormatError>) -> (r: Action)
        ensures
            same_request(*old(self), *final(self)),
            finishes(*final(self), r, outcome),
    {
        self.phase = Phase::Finished;
        Action::Finish(outcome)
    }

    fn after_loading(&mut self, config: Config) -> (r: Action)
        requires
            old(self).phase() is Finished,
        ensures
            same_request(*old(self), *final(self)),
            after_loading(*old(self), config, *final(self), r),
    {
        match is_excluded(&config.exclude, self.target_path.as_str()) {
            Err(e) => self.finish(Err(FormatError::Pattern(e))),
            Ok(true) => self.finish(Ok(FormatResult::Ignored)),
            Ok(false) => {
                let version = config.effective_toml_version();
                let options = config.into_format_options();
                self.phase = Phase::Formatting;
                Action::Format {
                    version,
                    options,
                    path: self.target_path.clone(),
                    content: self.target_content.clone(),
                }
            },
        }
    }

    /// Takes what came of the last action and decides the next one: the
    /// configuration search goes up the directories until a file decides
    /// it; the built-in catalog is then registered; the store loads the
    /// configuration's schema settings, with schema support switched off
    /// where the configuration has no schema section; the exclusion patterns
    /// are tested before the formatter is called, and an excluded target is
    /// ignored; a formatter failure becomes the rendered text of its
    /// diagnostics, each attributed to the target's path.
    pub fn step(&mut self, event: Event) -> (r: Action)
        ensures
            same_request(*old(self), *final(self)),
            transition(*old(self), event, *final(self), r),
    {
        let mut phase = Phase::Finished;
        core::mem::swap(&mut phase, &mut self.phase);
        match phase {
            Phase::Searching { levels, level, file } => match event {
                Event::ConfigRead(probe) => {
                    if level >= levels {
                        return self.finish(Err(FormatError::UnexpectedEvent));
                    }
                    match next_step(levels, level, file, probe) {
                        SearchStep::Read { level, file } => {
                            self.phase = Phase::Searching { levels, level, file };
                            Action::ReadConfig { level, file }
                        },
                        SearchStep::Found { config, level, file } => {
                            self.enter_registration(config, Some(ConfigOrigin { level, file }))
                        },
                        SearchStep::Default => self.enter_registration(Config::default(), None),
                        SearchStep::Failed(err) => self.finish(Err(FormatError::Config(err))),
                    }
                },
                _ => self.finish(Err(FormatError::UnexpectedEvent)),
            },
            Phase::Registering { config, origin } => match event {
                Event::CatalogRegistered(Ok(_)) => {
                    let config = config.with_schema_default();
                    let loaded = config.copy();
                    self.phase = Phase::Loading { config };
                    Action::LoadSchemaConfig { config: loaded, origin }
                },
                Event::CatalogRegistered(Err(m)) => self.finish(Err(FormatError::SchemaRegistration(m))),
                _ => self.finish(Err(FormatError::UnexpectedEvent)),
            },
            Phase::Loading { config } => match event {
                Event::SchemaConfigLoaded(Ok(_)) => self.after_loading(config),
                Event::SchemaConfigLoaded(Err(m)) => self.finish(Err(FormatError::SchemaLoad(m))),
                _ => self.finish(Err(FormatError::UnexpectedEvent)),
            },
            Phase::Formatting => match event {
                Event::Formatted(Ok(text)) => self.finish(Ok(FormatResult::Success { formatted_content: text })),
                Event::Formatted(Err(ds)) => {
                    let attributed = attribute_all(&ds, self.target_path.as_str());
                    let error = render(&attributed);
                    proof {
                        lemma_rendered_attribution(attributed@, ds@, self.target_path@);
                    }
                    self.finish(Ok(FormatResult::Error { error }))
                },
                _ => self.finish(Err(FormatError::UnexpectedEvent)),
            },
            Phase::Finished => self.finish(Err(FormatError::UnexpectedEvent)),
        }
    }
}

/// The session waits for the store and its configuration excludes the target.
pub open spec fn target_excluded(s: FormatSession) -> bool {
    match s.phase() {
        Phase::Loading { config } => match config.exclude {
            Some(ps) => all_compile(ps@) && excluded_by(ps@, s.target_path()),
            None => false,
        },
        _ => false,
    }
}

/// A target that matches a configured exclusion pattern is ignored as soon
/// as the store is ready, and the formatter is not asked for.
pub proof fn excluded_target_is_ignored(s: FormatSession, e: Event, t: FormatSession, a: Action)
    requires
        transition(s, e, t, a),
        target_excluded(s),
        e matches Event::SchemaConfigLoaded(Ok(_)),
    ensures
        a == Action::Finish(Ok(FormatResult::Ignored)),
        t.phase() is Finished,
{
}

/// A finished session stays finished and never asks for the formatter.
pub proof fn finished_session_never_formats(s: FormatSession, e: Event, t: FormatSession, a: Action)
    requires
        transition(s, e, t, a),
        s.phase() is Finished,
    ensures
        t.phase() is Finished,
        !(a is Format),
{
}

/// The session waits for the catalog and its configuration has no schema section.
pub open spec fn registering_without_schema(s: FormatSession) -> bool {
    match s.phase() {
        Phase::Registering { config, .. } => config.schema is None,
        _ => false,
    }
}

pub open spec fn loads_with_schemas_disabled(a: Action) -> bool {
    match a {
        Action::LoadSchemaConfig { config, .. } => config.schema == Some(disabled_schema()),
        _ => false,
    }
}

/// Where the configuration has no schema section, the store loads it with
/// schema support switched off.
pub proof fn missing_schema_section_disables_schemas(s: FormatSession, e: Event, t: FormatSession, a: Action)
    requires
        transition(s, e, t, a),
        registering_without_schema(s),
        e matches Event::CatalogRegistered(Ok(_)),
    ensures
        loads_with_schemas_disabled(a),
{
}

pub open spec fn registers_whole_catalog(s: FormatSession, a: Action) -> bool {
    match a {
        Action::RegisterCatalog { schemas, .. } => {
            &&& schemas@.len() == s.catalog().len()
            &&& forall|i: int| 0 <= i < schemas@.len() ==> prepared_as(#[trigger] schemas@[i], s.catalog()[i])
        },
        _ => false,
    }
}

/// Whenever the search ends with a configuration, found or default, every
/// entry of the built-in catalog is handed over for registration, whatever
/// the configuration says of schemas.
pub proof fn catalog_always_registered(s: FormatSession, e: Event, t: FormatSession, a: Action)
    requires
        transition(s, e, t, a),
        s.phase() is Searching,
        catalog_reads(s.catalog()),
        !(t.phase() is Searching),
        !(t.phase() is Finished),
    ensures
        registers_whole_catalog(s, a),
{
}

/// The session waits for the formatter, which reports at least one diagnostic.
pub open spec fn fails_with_diagnostics(s: FormatSession, e: Event) -> bool {
    &&& s.phase() is Formatting
    &&& match e {
        Event::Formatted(Err(ds)) => ds@.len() > 0,
        _ => false,
    }
}

pub open spec fn error_text_names(a: Action, path: Seq<char>) -> bool {
    match a {
        Action::Finish(Ok(FormatResult::Error { error })) => error@.len() > 0 && contains(error@, path),
        _ => false,
    }
}

/// A formatter failure ends in an `Error` outcome whose text is not empty
/// and names the target's path.
pub proof fn failure_text_names_target(s: FormatSession, e: Event, t: FormatSession, a: Action)
    requires
        transition(s, e, t, a),
        fails_with_diagnostics(s, e),
    ensures
        error_text_names(a, s.target_path()),
{
    if let Event::Formatted(Err(ds)) = e {
        rendered_names_file(ds@, s.target_path());
    }
}

} // verus!
