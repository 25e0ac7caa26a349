use vstd::prelude::*;

verus! {

/// The revision of the TOML specification that the formatter targets.
#[derive(PartialEq, Eq, Structural, Clone, Copy, Debug)]
pub enum TomlVersion {
    V1_0_0,
    V1_1_0Preview,
}

/// The revision used when the configuration names none: the latest stable one.
pub open spec fn default_toml_version() -> TomlVersion {
    TomlVersion::V1_0_0
}

/// Options handed to the formatter; absent fields take the formatter's defaults.
#[derive(Clone, Debug)]
pub struct FormatOptions {
    pub line_width: Option<u8>,
    pub indent_width: Option<u8>,
}

/// The formatter's own defaults.
pub open spec fn default_format_options() -> FormatOptions {
    FormatOptions { line_width: None, indent_width: None }
}

impl Default for FormatOptions {
    fn default() -> (r: FormatOptions)
        ensures
            r == default_format_options(),
    {
        FormatOptions { line_width: None, indent_width: None }
    }
}

/// The `[schema]` section of a configuration.
#[derive(Clone, Debug)]
pub struct SchemaOptions {
    pub enabled: Option<bool>,
    pub strict: Option<bool>,
    pub catalog: Option<Vec<String>>,
}

/// A project configuration. Every section is optional; an absent section
/// means its defaults.
#[derive(Clone, Debug)]
pub struct Config {
    pub toml_version: Option<TomlVersion>,
    pub format: Option<FormatOptions>,
    pub schema: Option<SchemaOptions>,
    pub exclude: Option<Vec<String>>,
}

/// The configuration in effect when no configuration file was found.
pub open spec fn default_config() -> Config {
    Config { toml_version: None, format: None, schema: None, exclude: None }
}

impl Default for Config {
    fn default() -> (r: Config)
        ensures
            r == default_config(),
    {
        Config { toml_version: None, format: None, schema: None, exclude: None }
    }
}

/// The schema section installed when a configuration has none: schema
/// support switched off, so that nothing the user did not ask for is fetched.
pub open spec fn disabled_schema() -> SchemaOptions {
    SchemaOptions { enabled: Some(false), strict: None, catalog: None }
}

/// The configuration used for schema loading and formatting.
pub open spec fn effective_config(c: Config) -> Config {
    match c.schema {
        Some(_) => c,
        None => Config { schema: Some(disabled_schema()), ..c },
    }
}

/// The options that a schema store of one invocation is built with.
#[derive(PartialEq, Eq, Structural, Clone, Copy, Debug)]
pub struct StoreOptions {
    pub offline: Option<bool>,
    pub strict: Option<bool>,
}

pub open spec fn store_options_of(c: Config) -> StoreOptions {
    StoreOptions {
        offline: Some(false),
        strict: match c.schema {
            Some(s) => s.strict,
            None => None,
        },
    }
}

pub open spec fn toml_version_of(c: Config) -> TomlVersion {
    match c.toml_version {
        Some(v) => v,
        None => default_toml_version(),
    }
}

pub open spec fn format_options_of(c: Config) -> FormatOptions {
    match c.format {
        Some(f) => f,
        None => default_format_options(),
    }
}

pub open spec fn views(v: Seq<String>) -> Seq<Seq<char>> {
    v.map_values(|x: String| x@)
}

pub open spec fn same_list(a: Option<Vec<String>>, b: Option<Vec<String>>) -> bool {
    match (a, b) {
        (Some(x), Some(y)) => views(x@) == views(y@),
        (None, None) => true,
        _ => false,
    }
}

/// `a` holds the same settings as `b`: equal values, and lists of equal text.
pub open spec fn copies(a: Config, b: Config) -> bool {
    &&& a.toml_version == b.toml_version
    &&& a.format == b.format
    &&& same_list(a.exclude, b.exclude)
    &&& match (a.schema, b.schema) {
        (Some(x), Some(y)) => x.enabled == y.enabled && x.strict == y.strict && same_list(x.catalog, y.catalog),
        (None, None) => true,
        _ => false,
    }
}

fn copy_list(v: &Option<Vec<String>>) -> (r: Option<Vec<String>>)
    ensures
        same_list(r, *v),
{
    match v {
        Some(x) => {
            let y = x.clone();
            proof {
                assert forall|i: int| 0 <= i < y@.len() implies y@[i] == x@[i] by {
                    assert(vstd::pervasive::cloned::<String>(x[i], y[i]));
                }
                assert(views(y@) =~= views(x@));
            }
            Some(y)
        },
        None => None,
    }
}

impl Config {
    /// A second configuration with the same settings.
    pub fn copy(&self) -> (r: Config)
        ensures
            copies(r, *self),
    {
        let format = match &self.format {
            Some(f) => Some(FormatOptions { line_width: f.line_width, indent_width: f.indent_width }),
            None => None,
        };
        let schema = match &self.schema {
            Some(s) => Some(SchemaOptions { enabled: s.enabled, strict: s.strict, catalog: copy_list(&s.catalog) }),
            None => None,
        };
        Config { toml_version: self.toml_version, format, schema, exclude: copy_list(&self.exclude) }
    }

    /// Installs the disabled schema section where the configuration has none.
    pub fn with_schema_default(self) -> (r: Config)
        ensures
            r == effective_config(self),
    {
        let mut c = self;
        if c.schema.is_none() {
            c.schema = Some(SchemaOptions { enabled: Some(false), strict: None, catalog: None });
        }
        c
    }

    /// The store is always online; its strictness comes from the schema section.
    pub fn store_options(&self) -> (r: StoreOptions)
        ensures
            r == store_options_of(*self),
    {
        let strict = match &self.schema {
            Some(s) => s.strict,
            None => None,
        };
        StoreOptions { offline: Some(false), strict }
    }

    /// Takes the format section out of the configuration, or the defaults.
    pub fn into_format_options(self) -> (r: FormatOptions)
        ensures
            r == format_options_of(self),
    {
        match self.format {
            Some(f) => f,
            None => FormatOptions { line_width: None, indent_width: None },
        }
    }

    pub fn effective_toml_version(&self) -> (r: TomlVersion)
        ensures
            r == toml_version_of(*self),
    {
        match self.toml_version {
            Some(v) => v,
            None => TomlVersion::V1_0_0,
        }
    }
}

} // verus!
