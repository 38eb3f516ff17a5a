use vstd::prelude::*;

verus! {

/// Memory given to the search index when the configuration names none.
pub const DEFAULT_INDEX_MEMORY_BYTES: usize = 50_000_000;

/// Depth of subtype information the search tool includes by default.
pub const DEFAULT_LEAF_DEPTH: usize = 1;

/// The path that the platform's path joining yields for `file` under `dir`.
pub uninterp spec fn joined_path(dir: Seq<char>, file: Seq<char>) -> Seq<char>;

/// Relies on `std::path::Path::join`: the path of `file` taken under `dir`
/// (or `file` itself where it is absolute), which depends on the two texts alone.
#[verifier::external_body]
pub(crate) fn join_path(dir: &str, file: &str) -> (r: String)
    ensures
        r@ == joined_path(dir@, file@),
{
    std::path::Path::new(dir).join(file).to_string_lossy().into_owned()
}

/// Introspection configuration: one option record per tool.
#[derive(Debug, Clone, PartialEq, Eq)]
pub struct Introspection {
    /// Execution configuration for introspection.
    pub execute: ExecuteConfig,
    /// Introspect configuration for allowing clients to run introspection.
    pub introspect: IntrospectConfig,
    /// Search tool configuration.
    pub search: SearchConfig,
    /// Validate configuration for checking operations before execution.
    pub validate: ValidateConfig,
}

/// Execution-specific introspection configuration.
#[derive(Debug, Clone, PartialEq, Eq)]
pub struct ExecuteConfig {
    /// Enable introspection for execution.
    pub enabled: bool,
    /// Additional hints to append to the execute tool description.
    pub hints: Option<String>,
    /// Path of a file holding the hints; it takes precedence over `hints`
    /// and is relative to the configuration directory where one is given.
    pub hints_file: Option<String>,
}

/// Introspect-specific introspection configuration.
#[derive(Debug, Clone, Copy, PartialEq, Eq)]
pub struct IntrospectConfig {
    /// Enable introspection requests.
    pub enabled: bool,
    /// Minify introspection results.
    pub minify: bool,
}

/// Search tool configuration.
#[derive(Debug, Clone, Copy, PartialEq, Eq)]
pub struct SearchConfig {
    /// Enable the search tool.
    pub enabled: bool,
    /// The amount of memory used for indexing, in bytes.
    pub index_memory_bytes: usize,
    /// The depth of subtype information to include from matching types
    /// (1 is just the matching type, 2 adds the types it references, and so on).
    pub leaf_depth: usize,
    /// Minify search results.
    pub minify: bool,
}

/// Validate tool configuration.
#[derive(Debug, Clone, Copy, PartialEq, Eq)]
pub struct ValidateConfig {
    /// Enable the validation tool.
    pub enabled: bool,
}

impl Default for ExecuteConfig {
    fn default() -> (r: Self)
        ensures
            r == ExecuteConfig::spec_default(),
    {
        ExecuteConfig { enabled: false, hints: None, hints_file: None }
    }
}

impl Default for IntrospectConfig {
    fn default() -> (r: Self)
        ensures
            r == IntrospectConfig::spec_default(),
    {
        IntrospectConfig { enabled: false, minify: false }
    }
}

impl Default for SearchConfig {
    fn default() -> (r: Self)
        ensures
            r == SearchConfig::spec_default(),
            !r.enabled,
            r.index_memory_bytes == 50_000_000,
            r.leaf_depth == 1,
            !r.minify,
    {
        SearchConfig {
            enabled: false,
            index_memory_bytes: DEFAULT_INDEX_MEMORY_BYTES,
            leaf_depth: DEFAULT_LEAF_DEPTH,
            minify: false,
        }
    }
}

impl Default for ValidateConfig {
    fn default() -> (r: Self)
        ensures
            r == ValidateConfig::spec_default(),
    {
        ValidateConfig { enabled: false }
    }
}

impl Default for Introspection {
    fn default() -> (r: Self)
        ensures
            r == Introspection::spec_default(),
    {
        Introspection {
            execute: ExecuteConfig::default(),
            introspect: IntrospectConfig::default(),
            search: SearchConfig::default(),
            validate: ValidateConfig::default(),
        }
    }
}

impl ExecuteConfig {
    /// The execute options when nothing is configured: disabled, with no hints.
    pub open spec fn spec_default() -> ExecuteConfig {
        ExecuteConfig { enabled: false, hints: None, hints_file: None }
    }

    /// The file that hint resolution reads, if any: `hints_file` joined under
    /// `config_dir` where a directory is given, else `hints_file` as written.
    pub open spec fn spec_hints_path(&self, config_dir: Option<&str>) -> Option<Seq<char>> {
        match self.hints_file {
            None => None,
            Some(file) => match config_dir {
                Some(dir) => Some(joined_path(dir@, file@)),
                None => Some(file@),
            },
        }
    }

    /// The path of the hints file to read, or `None` where the inline hints apply.
    pub fn hints_path(&self, config_dir: Option<&str>) -> (r: Option<String>)
        ensures
            r matches Some(p) ==> self.spec_hints_path(config_dir) == Some(p@),
            r is None ==> self.spec_hints_path(config_dir) is None,
    {
        match &self.hints_file {
            None => None,
            Some(file) => match config_dir {
                Some(dir) => Some(join_path(dir, file.as_str())),
                None => Some(file.clone()),
            },
        }
    }

    /// Resolves the effective hint text. `file_contents` is the outcome of
    /// reading the file that `hints_path` names, and `None` where it names none.
    /// A configured hints file always wins over the inline hints, and a failure
    /// to read it fails the resolution.
    pub fn resolve_hints<E>(&self, file_contents: Option<Result<String, E>>) -> (r: Result<
        Option<String>,
        E,
    >)
        requires
            self.hints_file is Some <==> file_contents is Some,
        ensures
            self.hints_file is None ==> r == Ok::<Option<String>, E>(self.hints),
            file_contents matches Some(Ok(text)) ==> r == Ok::<Option<String>, E>(Some(text)),
            file_contents matches Some(Err(e)) ==> r == Err::<Option<String>, E>(e),
    {
        match file_contents {
            Some(Ok(text)) => Ok(Some(text)),
            Some(Err(e)) => Err(e),
            None => Ok(self.hints.clone()),
        }
    }
}

impl IntrospectConfig {
    /// The introspect options when nothing is configured.
    pub open spec fn spec_default() -> IntrospectConfig {
        IntrospectConfig { enabled: false, minify: false }
    }
}

impl SearchConfig {
    /// The search options when nothing is configured.
    pub open spec fn spec_default() -> SearchConfig {
        SearchConfig {
            enabled: false,
            index_memory_bytes: DEFAULT_INDEX_MEMORY_BYTES,
            leaf_depth: DEFAULT_LEAF_DEPTH,
            minify: false,
        }
    }
}

impl ValidateConfig {
    /// The validate options when nothing is configured.
    pub open spec fn spec_default() -> ValidateConfig {
        ValidateConfig { enabled: false }
    }
}

impl Introspection {
    /// The whole configuration when nothing is configured.
    pub open spec fn spec_default() -> Introspection {
        Introspection {
            execute: ExecuteConfig::spec_default(),
            introspect: IntrospectConfig::spec_default(),
            search: SearchConfig::spec_default(),
            validate: ValidateConfig::spec_default(),
        }
    }

    /// Whether at least one of the four tools is enabled.
    pub open spec fn spec_any_enabled(&self) -> bool {
        self.execute.enabled || self.introspect.enabled || self.search.enabled
            || self.validate.enabled
    }

    /// Check if any introspection tools are enabled.
    pub fn any_enabled(&self) -> (r: bool)
        ensures
            r == self.spec_any_enabled(),
    {
        self.execute.enabled || self.introspect.enabled || self.search.enabled
            || self.validate.enabled
    }
}

/// With nothing configured, every tool is disabled and the tool group as a
/// whole is not offered.
pub proof fn lemma_default_enables_nothing()
    ensures
        !Introspection::spec_default().execute.enabled,
        !Introspection::spec_default().introspect.enabled,
        !Introspection::spec_default().search.enabled,
        !Introspection::spec_default().validate.enabled,
        !Introspection::spec_default().spec_any_enabled(),
{
}

/// Once any one of the four tools is enabled, the tool group is offered.
pub proof fn lemma_one_enabled_tool_suffices(config: Introspection)
    requires
        config.execute.enabled || config.introspect.enabled || config.search.enabled
            || config.validate.enabled,
    ensures
        config.spec_any_enabled(),
{
}

} // verus!
