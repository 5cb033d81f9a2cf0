use vstd::prelude::*;
use crate::console::ConsoleColor;
use crate::data::{base_archive_names, base_archive_names_spec};

verus! {

/// Name of the configuration file, looked up in the game directory.
pub const CONFIG_FILENAME: &'static str = "darkiron.toml";

/// Views of a list of strings.
pub open spec fn string_views(v: Seq<String>) -> Seq<Seq<char>> {
    v.map_values(|s: String| s@)
}

/// View of an optional list of strings.
pub open spec fn opt_views(o: Option<Vec<String>>) -> Option<Seq<Seq<char>>> {
    match o {
        Some(v) => Some(string_views(v@)),
        None => None,
    }
}

/// The `[window]` section of the configuration.
#[derive(Clone, Debug)]
pub struct WindowConfig {
    pub title: Option<String>,
    pub icon: Option<String>,
    pub server_alert_url: Option<String>,
}

impl Default for WindowConfig {
    fn default() -> (res: Self)
        ensures
            res.title is None,
            res.icon is None,
            res.server_alert_url is None,
    {
        WindowConfig { title: None, icon: None, server_alert_url: None }
    }
}

/// The data path the client reads archives from unless configured otherwise.
pub open spec fn default_path_spec() -> Seq<char> {
    "Data\\"@
}

/// Default for `data.path` when the `[data]` section leaves it out.
pub fn default_path() -> (res: String)
    ensures
        res@ == default_path_spec(),
{
    String::from_str("Data\\")
}

/// Default for `data.base_archives` when the `[data]` section leaves it out:
/// the client's own base archives, in its order.
pub fn default_base_archives() -> (res: Vec<String>)
    ensures
        string_views(res@) == base_archive_names_spec(),
{
    let names = base_archive_names();
    let mut res: Vec<String> = Vec::new();
    let n = names.len();
    for i in 0..n
        invariant
            n == names@.len(),
            names@.map_values(|s: &str| s@) == base_archive_names_spec(),
            res@.len() == i,
            forall|j: int| 0 <= j < i ==> #[trigger] res@[j]@ == base_archive_names_spec()[j],
    {
        assert(names@.map_values(|s: &str| s@)[i as int] == names@[i as int]@);
        res.push(String::from_str(names[i]));
    }
    assert(string_views(res@) =~= base_archive_names_spec());
    res
}

/// The `[data]` section of the configuration.
#[derive(Clone, Debug)]
pub struct DataConfig {
    pub path: String,
    pub base_archives: Vec<String>,
    pub patches: Option<Vec<String>>,
    pub validate_interface: bool,
}

impl Default for DataConfig {
    /// The section used when the file has no `[data]` table at all: every
    /// field empty (unlike a present table with missing fields, see
    /// [`DataConfig::from_fields`]).
    fn default() -> (res: Self)
        ensures
            res.path@ == Seq::<char>::empty(),
            res.base_archives@.len() == 0,
            res.patches is None,
            !res.validate_interface,
    {
        DataConfig {
            path: String::new(),
            base_archives: Vec::new(),
            patches: None,
            validate_interface: false,
        }
    }
}

impl DataConfig {
    /// Builds a `[data]` table from the fields the file gives; an absent
    /// `path` becomes `"Data\\"`, absent `base_archives` the client's base
    /// archives, absent `validate_interface` false.
    pub fn from_fields(
        path: Option<String>,
        base_archives: Option<Vec<String>>,
        patches: Option<Vec<String>>,
        validate_interface: Option<bool>,
    ) -> (res: DataConfig)
        ensures
            res.path@ == match path {
                Some(p) => p@,
                None => default_path_spec(),
            },
            string_views(res.base_archives@) == match base_archives {
                Some(b) => string_views(b@),
                None => base_archive_names_spec(),
            },
            opt_views(res.patches) == opt_views(patches),
            res.validate_interface == match validate_interface {
                Some(v) => v,
                None => false,
            },
    {
        let path = match path {
            Some(p) => p,
            None => default_path(),
        };
        let base_archives = match base_archives {
            Some(b) => b,
            None => default_base_archives(),
        };
        let validate_interface = match validate_interface {
            Some(v) => v,
            None => false,
        };
        DataConfig { path, base_archives, patches, validate_interface }
    }
}

/// The whole configuration file.
#[derive(Clone, Debug)]
pub struct Config {
    pub window: WindowConfig,
    pub data: DataConfig,
}

impl Default for Config {
    fn default() -> (res: Self)
        ensures
            res.window.title is None,
            res.window.icon is None,
            res.window.server_alert_url is None,
            res.data.path@ == Seq::<char>::empty(),
            res.data.base_archives@.len() == 0,
            res.data.patches is None,
            !res.data.validate_interface,
    {
        Config { window: WindowConfig::default(), data: DataConfig::default() }
    }
}

impl Config {
    /// Builds the configuration from the sections the file gives; an absent
    /// section takes its `Default` (for `[data]` that is every field empty,
    /// not the per-field defaults of [`DataConfig::from_fields`]).
    pub fn from_sections(window: Option<WindowConfig>, data: Option<DataConfig>) -> (res: Config)
        ensures
            match window {
                Some(w) => res.window == w,
                None => res.window.title is None && res.window.icon is None
                    && res.window.server_alert_url is None,
            },
            match data {
                Some(d) => res.data == d,
                None => res.data.path@ == Seq::<char>::empty() && res.data.base_archives@.len() == 0
                    && res.data.patches is None && !res.data.validate_interface,
            },
    {
        let window = match window {
            Some(w) => w,
            None => WindowConfig::default(),
        };
        let data = match data {
            Some(d) => d,
            None => DataConfig::default(),
        };
        Config { window, data }
    }

    /// The configuration in force after reading the file: what was parsed,
    /// or, when parsing failed with message `error`, the default
    /// configuration and a notice saying so.
    pub fn from_parse_result(parsed: Result<Config, String>) -> (res: (Config, Option<ConfigNotice>))
        ensures
            match parsed {
                Ok(c) => res.0 == c && res.1 is None,
                Err(e) => {
                    &&& res.0.window.title is None
                    &&& res.0.window.icon is None
                    &&& res.0.window.server_alert_url is None
                    &&& res.0.data.path@ == Seq::<char>::empty()
                    &&& res.0.data.base_archives@.len() == 0
                    &&& res.0.data.patches is None
                    &&& !res.0.data.validate_interface
                    &&& res.1 matches Some(ConfigNotice::ReadFailed(m)) && m@ == e@
                },
            },
    {
        match parsed {
            Ok(c) => (c, None),
            Err(e) => (Config::default(), Some(ConfigNotice::ReadFailed(e))),
        }
    }
}

/// Something the configuration loader reports on the console.
#[derive(Clone, Debug)]
pub enum ConfigNotice {
    /// The file could not be parsed, with the parser's message.
    ReadFailed(String),
    /// The file is missing and is written with the defaults.
    Generating,
    /// The defaults could not be written, with the system's message.
    WriteFailed(String),
}

/// The console text of a notice.
pub open spec fn notice_text(n: ConfigNotice) -> Seq<char> {
    match n {
        ConfigNotice::ReadFailed(e) => "[config] failed to read darkiron.toml: "@ + e@,
        ConfigNotice::Generating => "[config] generating darkiron.toml with defaults"@,
        ConfigNotice::WriteFailed(e) => "[config] failed to write darkiron.toml: "@ + e@,
    }
}

/// The console colour of a notice: failures as errors, the rest as warnings.
pub open spec fn notice_color(n: ConfigNotice) -> ConsoleColor {
    match n {
        ConfigNotice::Generating => ConsoleColor::Warning,
        _ => ConsoleColor::Error,
    }
}

impl ConfigNotice {
    pub fn text(&self) -> (res: String)
        ensures
            res@ == notice_text(*self),
    {
        match self {
            ConfigNotice::ReadFailed(e) => String::from_str("[config] failed to read darkiron.toml: ").concat(e.as_str()),
            ConfigNotice::Generating => String::from_str("[config] generating darkiron.toml with defaults"),
            ConfigNotice::WriteFailed(e) => String::from_str("[config] failed to write darkiron.toml: ").concat(e.as_str()),
        }
    }

    pub fn color(&self) -> (res: ConsoleColor)
        ensures
            res == notice_color(*self),
    {
        match self {
            ConfigNotice::Generating => ConsoleColor::Warning,
            _ => ConsoleColor::Error,
        }
    }
}

/// Title the client gives its window when none is configured.
pub open spec fn default_title_spec() -> Seq<char> {
    "World of Warcraft"@
}

/// The title of the client's window: the configured one, else the game's.
pub fn window_title(window: &WindowConfig) -> (res: String)
    ensures
        res@ == match window.title {
            Some(t) => t@,
            None => default_title_spec(),
        },
{
    match &window.title {
        Some(t) => t.clone(),
        None => String::from_str("World of Warcraft"),
    }
}

/// How long the client waits for the server alert, in milliseconds.
pub const ALERT_TIMEOUT_MS: u32 = 5000;

/// The request for the server alert text.
#[derive(Clone, Debug)]
pub struct AlertRequest {
    pub url: String,
    pub timeout_ms: u32,
}

/// The server alert request to make: from the configured URL with the
/// alert timeout, or none (the client is then answered 0) without a URL.
pub fn alert_request(window: &WindowConfig) -> (res: Option<AlertRequest>)
    ensures
        match window.server_alert_url {
            Some(u) => res matches Some(r) && r.url@ == u@ && r.timeout_ms == ALERT_TIMEOUT_MS,
            None => res is None,
        },
{
    match &window.server_alert_url {
        Some(u) => Some(AlertRequest { url: u.clone(), timeout_ms: ALERT_TIMEOUT_MS }),
        None => None,
    }
}

} // verus!
