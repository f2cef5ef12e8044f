//! The configuration: its tabs, its defaults, the rules it has to meet, where it lies.

use crate::text::{blank, decimal, decimal_text, is_blank, same_text};
use vstd::prelude::*;
use vstd::string::*;

verus! {

/// The directory that stands in for the home directory where none is known.
pub const HERE: &'static str = ".";

/// The configuration of the viewer.
#[derive(Debug, Clone)]
pub struct Config {
    /// Default AWS region. Tabs can override it. `None` leaves the choice to the `aws` tool
    /// (`AWS_REGION`, `AWS_DEFAULT_REGION`, the profile).
    pub region: Option<String>,
    /// Polling interval for `builds` tabs in seconds. `0` disables the timed refresh.
    pub refresh_interval_secs: u64,
    /// The tabs, at least one.
    pub tabs: Vec<Tab>,
}

/// One configured tab.
#[derive(Debug, Clone)]
pub struct Tab {
    /// Human label shown in the tab strip.
    pub name: String,
    /// `builds`: recent CodeBuild runs of `project`.
    /// `logs`: `aws logs tail --follow` on `log_group`, narrowed to `log_stream` where there is one.
    pub kind: String,
    /// Overrides the default region for this tab.
    pub region: Option<String>,
    /// CodeBuild project name. Required for the kind `builds`.
    pub project: Option<String>,
    /// CloudWatch log group name. Required for the kind `logs`.
    pub log_group: Option<String>,
    /// Log stream filter for the kind `logs`. `None` tails every stream of the group.
    pub log_stream: Option<String>,
}

/// What a `Config` holds.
#[verifier::ext_equal]
pub struct ConfigV {
    pub region: Option<Seq<char>>,
    pub refresh_interval_secs: u64,
    pub tabs: Seq<TabV>,
}

/// What a `Tab` holds.
#[verifier::ext_equal]
pub struct TabV {
    pub name: Seq<char>,
    pub kind: Seq<char>,
    pub region: Option<Seq<char>>,
    pub project: Option<Seq<char>>,
    pub log_group: Option<Seq<char>>,
    pub log_stream: Option<Seq<char>>,
}

impl View for Tab {
    type V = TabV;

    open spec fn view(&self) -> TabV {
        TabV {
            name: self.name@,
            kind: self.kind@,
            region: self.region.deep_view(),
            project: self.project.deep_view(),
            log_group: self.log_group.deep_view(),
            log_stream: self.log_stream.deep_view(),
        }
    }
}

impl DeepView for Tab {
    type V = TabV;

    open spec fn deep_view(&self) -> TabV {
        self@
    }
}

impl View for Config {
    type V = ConfigV;

    open spec fn view(&self) -> ConfigV {
        ConfigV {
            region: self.region.deep_view(),
            refresh_interval_secs: self.refresh_interval_secs,
            tabs: self.tabs.deep_view(),
        }
    }
}

/// Why a configuration is rejected.
#[derive(Debug, Clone)]
pub enum ConfigError {
    /// There is no tab.
    NoTabs,
    /// The kind of a tab is neither `builds` nor `logs`.
    UnknownKind { index: usize, name: String, kind: String },
    /// A `builds` tab has no project, or a blank one.
    MissingProject { index: usize, name: String },
    /// A `logs` tab has no log group, or a blank one.
    MissingLogGroup { index: usize, name: String },
}

/// What a `ConfigError` holds.
#[verifier::ext_equal]
pub enum ConfigErrorV {
    NoTabs,
    UnknownKind { index: int, name: Seq<char>, kind: Seq<char> },
    MissingProject { index: int, name: Seq<char> },
    MissingLogGroup { index: int, name: Seq<char> },
}

impl View for ConfigError {
    type V = ConfigErrorV;

    open spec fn view(&self) -> ConfigErrorV {
        match self {
            ConfigError::NoTabs => ConfigErrorV::NoTabs,
            ConfigError::UnknownKind { index, name, kind } => ConfigErrorV::UnknownKind {
                index: *index as int,
                name: name@,
                kind: kind@,
            },
            ConfigError::MissingProject { index, name } => ConfigErrorV::MissingProject {
                index: *index as int,
                name: name@,
            },
            ConfigError::MissingLogGroup { index, name } => ConfigErrorV::MissingLogGroup {
                index: *index as int,
                name: name@,
            },
        }
    }
}

/// Whether an optional text is absent or blank.
pub open spec fn missing(s: Option<Seq<char>>) -> bool {
    match s {
        Some(text) => blank(text),
        None => true,
    }
}

impl TabV {
    /// What is wrong with this tab, standing at `index`.
    pub open spec fn error(self, index: int) -> Option<ConfigErrorV> {
        if self.kind == "builds"@ {
            if missing(self.project) {
                Some(ConfigErrorV::MissingProject { index, name: self.name })
            } else {
                None
            }
        } else if self.kind == "logs"@ {
            if missing(self.log_group) {
                Some(ConfigErrorV::MissingLogGroup { index, name: self.name })
            } else {
                None
            }
        } else {
            Some(ConfigErrorV::UnknownKind { index, name: self.name, kind: self.kind })
        }
    }
}

impl ConfigV {
    /// There is a tab, and nothing is wrong with any.
    pub open spec fn valid(self) -> bool {
        &&& self.tabs.len() > 0
        &&& forall|i: int| 0 <= i < self.tabs.len() ==> (#[trigger] self.tabs[i]).error(i) is None
    }

    /// `e` is what is wrong with the tab at `i`, and nothing is wrong with the tabs before it.
    pub open spec fn first_error_at(self, i: int, e: ConfigErrorV) -> bool {
        &&& 0 <= i < self.tabs.len()
        &&& self.tabs[i].error(i) == Some(e)
        &&& forall|j: int| 0 <= j < i ==> (#[trigger] self.tabs[j]).error(j) is None
    }

    /// `e` is the first thing wrong with the configuration.
    pub open spec fn rejected_with(self, e: ConfigErrorV) -> bool {
        if self.tabs.len() == 0 {
            e == ConfigErrorV::NoTabs
        } else {
            exists|i: int| self.first_error_at(i, e)
        }
    }
}

impl ConfigErrorV {
    /// The sentence shown for this error.
    pub open spec fn message(self) -> Seq<char> {
        match self {
            ConfigErrorV::NoTabs => "config: at least one [[tabs]] entry required"@,
            ConfigErrorV::UnknownKind { index, name, kind } => "tab #"@ + decimal(index as nat)
                + " ("@ + name + "): kind must be `builds` or `logs`, got `"@ + kind + "`"@,
            ConfigErrorV::MissingProject { index, name } => "tab #"@ + decimal(index as nat)
                + " ("@ + name + "): `project` is required for kind `builds`"@,
            ConfigErrorV::MissingLogGroup { index, name } => "tab #"@ + decimal(index as nat)
                + " ("@ + name + "): `log_group` is required for kind `logs`"@,
        }
    }
}

impl ConfigError {
    /// The sentence shown for this error.
    pub fn message(&self) -> (text: String)
        ensures
            text@ == self@.message(),
    {
        match self {
            ConfigError::NoTabs => "config: at least one [[tabs]] entry required".to_string(),
            ConfigError::UnknownKind { index, name, kind } => "tab #".to_string().concat(
                decimal_text(*index as u64).as_str(),
            ).concat(" (").concat(name.as_str()).concat(
                "): kind must be `builds` or `logs`, got `",
            ).concat(kind.as_str()).concat("`"),
            ConfigError::MissingProject { index, name } => "tab #".to_string().concat(
                decimal_text(*index as u64).as_str(),
            ).concat(" (").concat(name.as_str()).concat(
                "): `project` is required for kind `builds`",
            ),
            ConfigError::MissingLogGroup { index, name } => "tab #".to_string().concat(
                decimal_text(*index as u64).as_str(),
            ).concat(" (").concat(name.as_str()).concat(
                "): `log_group` is required for kind `logs`",
            ),
        }
    }
}

/// The polling interval where the file names none: a minute.
pub fn default_refresh() -> (secs: u64)
    ensures
        secs == 60,
{
    60
}

/// The kind of a tab where the file names none.
pub fn default_kind() -> (kind: String)
    ensures
        kind@ == "builds"@,
{
    "builds".to_string()
}

/// Whether an optional text is absent or blank.
fn is_missing(s: &Option<String>) -> (yes: bool)
    ensures
        yes == missing(s.deep_view()),
{
    match s {
        Some(text) => is_blank(text.as_str()),
        None => true,
    }
}

impl Tab {
    /// What is wrong with this tab, standing at `index`.
    fn check(&self, index: usize) -> (error: Option<ConfigError>)
        ensures
            error is None <==> self@.error(index as int) is None,
            error matches Some(e) ==> self@.error(index as int) == Some(e@),
    {
        if same_text(self.kind.as_str(), "builds") {
            if is_missing(&self.project) {
                Some(ConfigError::MissingProject { index, name: self.name.clone() })
            } else {
                None
            }
        } else if same_text(self.kind.as_str(), "logs") {
            if is_missing(&self.log_group) {
                Some(ConfigError::MissingLogGroup { index, name: self.name.clone() })
            } else {
                None
            }
        } else {
            Some(
                ConfigError::UnknownKind {
                    index,
                    name: self.name.clone(),
                    kind: self.kind.clone(),
                },
            )
        }
    }
}

impl Config {
    /// The file written where there is none yet.
    pub const EXAMPLE: &'static str = r##"# mnml-aws-codebuild config. Edit and re-run.
#
# `region` is optional — falls back to the `aws` CLI's own resolution
# ($AWS_REGION / $AWS_DEFAULT_REGION / your profile).
# region = "us-east-1"

# Auto-refresh in seconds. 0 disables; user can still press `r`.
refresh_interval_secs = 60

# ── Tabs ─────────────────────────────────────────────────────────
# Each `[[tabs]]` entry is one tab. Switched via 1-9 (or click) and
# rendered left→right.
#
# Supported kinds:
#   builds — recent CodeBuild runs for `project`
#   logs   — `aws logs tail --follow` on `log_group` (+ optional `log_stream`)

[[tabs]]
name    = "my-app builds"
project = "my-app"

[[tabs]]
name      = "my-app logs"
kind      = "logs"
log_group = "/aws/codebuild/my-app"

# Second project, narrowed to one stream.
# [[tabs]]
# name       = "playwright logs"
# kind       = "logs"
# log_group  = "/aws/codebuild/playwright-runner"
# log_stream = "abc123"
"##;

    /// Checks the configuration tab by tab; the first thing wrong is returned.
    pub fn validate(&self) -> (checked: Result<(), ConfigError>)
        ensures
            checked is Ok <==> self@.valid(),
            checked matches Err(e) ==> self@.rejected_with(e@),
    {
        if self.tabs.len() == 0 {
            return Err(ConfigError::NoTabs);
        }
        let mut i: usize = 0;
        while i < self.tabs.len()
            invariant
                i <= self.tabs.len(),
                self@.tabs.len() == self.tabs.len(),
                self.tabs.len() > 0,
                forall|j: int| 0 <= j < i ==> (#[trigger] self@.tabs[j]).error(j) is None,
            decreases self.tabs.len() - i,
        {
            assert(self@.tabs[i as int] == self.tabs[i as int]@);
            match self.tabs[i].check(i) {
                Some(e) => {
                    assert(self@.first_error_at(i as int, e@));
                    return Err(e);
                },
                None => {},
            }
            i = i + 1;
        }
        Ok(())
    }
}

/// The directory under the home directory that holds the file.
pub const CONFIG_DIR: &'static str = ".config";

/// The name of the file.
pub const CONFIG_FILE: &'static str = "mnml-aws-codebuild.toml";

/// Where the file lies: the directory to start from, the home directory where one is known and
/// else `here`, and the names that lead from there to the file.
pub fn config_path<P>(home: Option<P>, here: P) -> (path: (P, Vec<String>))
    ensures
        path.0 == (match home {
            Some(home) => home,
            None => here,
        }),
        path.1.deep_view() == seq![CONFIG_DIR@, CONFIG_FILE@],
{
    let base = match home {
        Some(home) => home,
        None => here,
    };
    let mut names: Vec<String> = Vec::new();
    names.push(CONFIG_DIR.to_string());
    names.push(CONFIG_FILE.to_string());
    assert(names.deep_view() =~= seq![CONFIG_DIR@, CONFIG_FILE@]);
    (base, names)
}

/// What was found where the file should lie.
pub enum ConfigFile {
    /// No file.
    Missing,
    /// A file that holds this configuration.
    Parsed(Config),
}

/// Why there is no configuration to go on with.
#[derive(Debug, Clone)]
pub enum LoadError {
    /// There was no file at this place, and the template goes there.
    Template(String),
    /// The file breaks a rule.
    Invalid(ConfigError),
}

/// What a `LoadError` holds.
#[verifier::ext_equal]
pub enum LoadErrorV {
    Template(Seq<char>),
    Invalid(ConfigErrorV),
}

impl View for LoadError {
    type V = LoadErrorV;

    open spec fn view(&self) -> LoadErrorV {
        match self {
            LoadError::Template(path) => LoadErrorV::Template(path@),
            LoadError::Invalid(e) => LoadErrorV::Invalid(e@),
        }
    }
}

impl LoadErrorV {
    /// The sentence shown for this error.
    pub open spec fn message(self) -> Seq<char> {
        match self {
            LoadErrorV::Template(path) => "wrote config template to "@ + path
                + " — edit it then re-run"@,
            LoadErrorV::Invalid(e) => e.message(),
        }
    }
}

impl LoadError {
    /// The sentence shown for this error.
    pub fn message(&self) -> (text: String)
        ensures
            text@ == self@.message(),
    {
        match self {
            LoadError::Template(path) => "wrote config template to ".to_string().concat(
                path.as_str(),
            ).concat(" — edit it then re-run"),
            LoadError::Invalid(e) => e.message(),
        }
    }

    /// The text to write in place of the missing file.
    pub fn template(&self) -> (text: Option<String>)
        ensures
            text.deep_view() == (match self@ {
                LoadErrorV::Template(_) => Some(Config::EXAMPLE@),
                LoadErrorV::Invalid(_) => None,
            }),
    {
        match self {
            LoadError::Template(_) => Some(Config::EXAMPLE.to_string()),
            LoadError::Invalid(_) => None,
        }
    }
}

/// Goes on with the configuration found at `path`, where there is one and it keeps the rules.
pub fn load(path: &str, file: ConfigFile) -> (loaded: Result<Config, LoadError>)
    ensures
        match file {
            ConfigFile::Missing => loaded matches Err(e) && e@ == LoadErrorV::Template(path@),
            ConfigFile::Parsed(cfg) => {
                &&& loaded is Ok <==> cfg@.valid()
                &&& match loaded {
                    Ok(found) => found == cfg,
                    Err(e) => e@ matches LoadErrorV::Invalid(broken) && cfg@.rejected_with(broken),
                }
            },
        },
{
    match file {
        ConfigFile::Missing => Err(LoadError::Template(path.to_string())),
        ConfigFile::Parsed(cfg) => match cfg.validate() {
            Ok(()) => Ok(cfg),
            Err(e) => Err(LoadError::Invalid(e)),
        },
    }
}

} // verus!
