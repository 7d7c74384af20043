//! Older configuration file formats and their conversion to newer ones.
use vstd::prelude::*;
use crate::config::{Modifier, SearchEngine};
use crate::convert::engine_from;
use crate::dispatch::ascii_lower;
use crate::config_io as io;
use crate::config_io::{CURRENT_CONFIG_VERSION, FilterBy};
use crate::text::{owned, str_eq};

verus! {

/// Why a configuration file cannot be migrated.
#[derive(Debug, Clone, Copy, PartialEq, Eq, Structural)]
pub enum MigrationError {
    /// The file declares a newer format than this library reads.
    NewerThanSupported,
    /// The file declares no format version.
    NoVersion,
    /// No migration exists from the declared version.
    UnsupportedVersion(u64),
    /// The file is no TOML document.
    InvalidToml,
}

/// Whether a file declaring format `version` must be migrated: newer
/// formats are refused, older ones need migration.
pub fn check_migration_needed(version: u64) -> (r: Result<bool, MigrationError>)
    ensures
        version > CURRENT_CONFIG_VERSION ==> r == Err::<bool, MigrationError>(
            MigrationError::NewerThanSupported,
        ),
        version <= CURRENT_CONFIG_VERSION ==> r == Ok::<bool, MigrationError>(
            version != CURRENT_CONFIG_VERSION,
        ),
{
    if version > CURRENT_CONFIG_VERSION {
        return Err(MigrationError::NewerThanSupported);
    }
    Ok(version != CURRENT_CONFIG_VERSION)
}

/// The format version of a configuration file from its declared `version`
/// field: a file must declare one.
pub fn get_config_version(declared: Option<u64>) -> (r: Result<u64, MigrationError>)
    ensures
        r == match declared {
            Some(v) => Ok::<u64, MigrationError>(v),
            None => Err(MigrationError::NoVersion),
        },
{
    match declared {
        Some(v) => Ok(v),
        None => Err(MigrationError::NoVersion),
    }
}

// ---------------------------------------------------------------------------
// Format 4
// ---------------------------------------------------------------------------


/// Format version that format-4 files migrate to.
pub const V4_NEXT_CONFIG_VERSION: u64 = 5;

#[derive(Debug)]
pub struct V4Config {
    pub version: u64,
    pub windows: Option<V4Windows>,
}

#[derive(Debug)]
pub struct V4Windows {
    /// Bit pattern of the `f64` scale factor.
    pub scale_bits: u64,
    pub items_per_row: u8,
    pub overview: Option<V4Overview>,
    pub switch: Option<V4Switch>,
    pub switch_2: Option<V4Switch>,
}

#[derive(Debug)]
pub struct V4Overview {
    pub launcher: V4Launcher,
    pub key: String,
    pub top_offset: u16,
    pub modifier: Modifier,
    pub filter_by: Vec<FilterBy>,
    pub hide_filtered: bool,
    pub exclude_workspaces: String,
}

#[derive(Debug)]
pub struct V4Launcher {
    pub default_terminal: Option<String>,
    pub launch_modifier: Modifier,
    pub width: u16,
    pub max_items: u8,
    pub show_when_empty: bool,
    pub plugins: V4Plugins,
}

#[derive(Debug)]
pub struct V4Plugins {
    pub applications: Option<V4ApplicationsPluginConfig>,
    pub terminal: Option<io::EmptyConfig>,
    pub shell: Option<io::EmptyConfig>,
    pub websearch: Option<V4WebSearchConfig>,
    pub calc: Option<V4CalcPluginConfig>,
    pub path: Option<io::EmptyConfig>,
    pub actions: Option<V4ActionsPluginConfig>,
}

#[derive(Debug, Clone, Copy, PartialEq, Eq, Structural)]
pub struct V4ApplicationsPluginConfig {
    pub run_cache_weeks: u8,
    pub show_execs: bool,
    pub show_actions_submenu: bool,
}

#[derive(Debug)]
pub struct V4ActionsPluginConfig {
    pub actions: Vec<V4ActionsPluginAction>,
}

#[derive(Debug)]
pub enum V4ActionsPluginAction {
    LockScreen,
    Hibernate,
    Logout,
    Reboot,
    Shutdown,
    Suspend,
    Custom(V4ActionsPluginActionCustom),
}

#[derive(Debug)]
pub struct V4ActionsPluginActionCustom {
    pub names: Vec<String>,
    pub details: String,
    pub command: String,
    pub icon: String,
}

#[derive(Debug)]
pub struct V4WebSearchConfig {
    pub engines: Vec<V4SearchEngine>,
}

#[derive(Debug)]
pub struct V4SearchEngine {
    pub url: String,
    pub name: String,
    pub key: char,
}

#[derive(Debug)]
pub struct V4CalcPluginConfig {
    pub prefix: Option<String>,
}

#[derive(Debug)]
pub struct V4Switch {
    pub modifier: Modifier,
    pub key: String,
    pub filter_by: Vec<FilterBy>,
    pub switch_workspaces: bool,
    pub exclude_workspaces: String,
    pub kill_key: char,
}

impl V4ActionsPluginConfig {
    /// The format-4 default actions: the six presets, then `Kill`/`Stop`
    /// and `Reload Hyprshell`.
    pub open spec fn is_default(self) -> bool {
        let a = self.actions@;
        &&& a.len() == 8
        &&& a[0] is LockScreen
        &&& a[1] is Hibernate
        &&& a[2] is Logout
        &&& a[3] is Reboot
        &&& a[4] is Shutdown
        &&& a[5] is Suspend
        &&& a[6] matches V4ActionsPluginAction::Custom(c) && c.names@.len() == 2
            && c.names@[0]@ == "Kill"@ && c.names@[1]@ == "Stop"@
            && c.details@ == "Kill or stop a process by name"@ && c.command@ == io::kill_command()
            && c.icon@ == "remove"@
        &&& a[7] matches V4ActionsPluginAction::Custom(c) && c.names@.len() == 1
            && c.names@[0]@ == "Reload Hyprshell"@ && c.details@ == "Reload Hyprshell"@
            && c.command@ == "sleep 1; hyprshell socat '\"Restart\"'"@ && c.icon@
            == "system-restart"@
    }

    pub fn default_actions() -> (r: Self)
        ensures
            r.is_default(),
    {
        let mut actions: Vec<V4ActionsPluginAction> = Vec::new();
        actions.push(V4ActionsPluginAction::LockScreen);
        actions.push(V4ActionsPluginAction::Hibernate);
        actions.push(V4ActionsPluginAction::Logout);
        actions.push(V4ActionsPluginAction::Reboot);
        actions.push(V4ActionsPluginAction::Shutdown);
        actions.push(V4ActionsPluginAction::Suspend);
        let mut kill_names: Vec<String> = Vec::new();
        kill_names.push(owned("Kill"));
        kill_names.push(owned("Stop"));
        actions.push(
            V4ActionsPluginAction::Custom(
                V4ActionsPluginActionCustom {
                    names: kill_names,
                    details: owned("Kill or stop a process by name"),
                    command: owned("pkill \"{}\" && notify-send hyprshell \"stopped {}\""),
                    icon: owned("remove"),
                },
            ),
        );
        let mut reload_names: Vec<String> = Vec::new();
        reload_names.push(owned("Reload Hyprshell"));
        actions.push(
            V4ActionsPluginAction::Custom(
                V4ActionsPluginActionCustom {
                    names: reload_names,
                    details: owned("Reload Hyprshell"),
                    command: owned("sleep 1; hyprshell socat '\"Restart\"'"),
                    icon: owned("system-restart"),
                },
            ),
        );
        V4ActionsPluginConfig { actions }
    }
}

impl Default for V4ActionsPluginConfig {
    fn default() -> (r: Self)
        ensures
            r.is_default(),
    {
        V4ActionsPluginConfig::default_actions()
    }
}

impl Default for V4ApplicationsPluginConfig {
    fn default() -> (r: Self)
        ensures
            r == (V4ApplicationsPluginConfig {
                run_cache_weeks: 8,
                show_execs: true,
                show_actions_submenu: true,
            }),
    {
        V4ApplicationsPluginConfig { run_cache_weeks: 8, show_execs: true, show_actions_submenu: true }
    }
}

impl Default for V4CalcPluginConfig {
    fn default() -> (r: Self)
        ensures
            r.prefix is None,
    {
        V4CalcPluginConfig { prefix: None }
    }
}

impl V4WebSearchConfig {
    /// The format-4 default engines: Google (`g`) and Wikipedia (`w`).
    pub open spec fn is_default(self) -> bool {
        let e = self.engines@;
        &&& e.len() == 2
        &&& e[0].url@ == "https://www.google.com/search?q={}"@ && e[0].name@ == "Google"@
            && e[0].key == 'g'
        &&& e[1].url@ == "https://en.wikipedia.org/wiki/Special:Search?search={}"@ && e[1].name@
            == "Wikipedia"@ && e[1].key == 'w'
    }
}

impl Default for V4WebSearchConfig {
    fn default() -> (r: Self)
        ensures
            r.is_default(),
    {
        let mut engines: Vec<V4SearchEngine> = Vec::new();
        engines.push(
            V4SearchEngine {
                url: owned("https://www.google.com/search?q={}"),
                name: owned("Google"),
                key: 'g',
            },
        );
        engines.push(
            V4SearchEngine {
                url: owned("https://en.wikipedia.org/wiki/Special:Search?search={}"),
                name: owned("Wikipedia"),
                key: 'w',
            },
        );
        V4WebSearchConfig { engines }
    }
}

impl V4Launcher {
    /// The format-4 launcher defaults.
    pub open spec fn is_default(self) -> bool {
        &&& self.default_terminal is None
        &&& self.launch_modifier == Modifier::Ctrl
        &&& self.width == 650
        &&& self.max_items == 5
        &&& self.show_when_empty
        &&& self.plugins.applications == Some(
            V4ApplicationsPluginConfig { run_cache_weeks: 8, show_execs: true, show_actions_submenu: true },
        )
        &&& self.plugins.terminal is Some
        &&& self.plugins.shell is None
        &&& self.plugins.websearch matches Some(w) && w.is_default()
        &&& self.plugins.calc matches Some(c) && c.prefix is None
        &&& self.plugins.path is Some
        &&& self.plugins.actions matches Some(a) && a.is_default()
    }
}

impl Default for V4Launcher {
    fn default() -> (r: Self)
        ensures
            r.is_default(),
    {
        V4Launcher {
            default_terminal: None,
            launch_modifier: Modifier::Ctrl,
            width: 650,
            max_items: 5,
            show_when_empty: true,
            plugins: V4Plugins {
                applications: Some(V4ApplicationsPluginConfig::default()),
                terminal: Some(io::EmptyConfig {  }),
                shell: None,
                websearch: Some(V4WebSearchConfig::default()),
                calc: Some(V4CalcPluginConfig::default()),
                path: Some(io::EmptyConfig {  }),
                actions: Some(V4ActionsPluginConfig::default()),
            },
        }
    }
}

impl Default for V4Overview {
    fn default() -> (r: Self)
        ensures
            r.launcher.is_default(),
            r.key@ == "Super_L"@,
            r.top_offset == 430,
            r.modifier == Modifier::Super,
            r.filter_by@.len() == 0,
            !r.hide_filtered,
            r.exclude_workspaces@ == "special:.*"@,
    {
        V4Overview {
            launcher: V4Launcher::default(),
            key: owned("Super_L"),
            top_offset: 430,
            modifier: Modifier::Super,
            filter_by: Vec::new(),
            hide_filtered: false,
            exclude_workspaces: owned("special:.*"),
        }
    }
}

impl Default for V4Switch {
    fn default() -> (r: Self)
        ensures
            r.modifier == Modifier::Alt,
            r.key@ == "Tab"@,
            r.filter_by@ == seq![FilterBy::CurrentMonitor],
            !r.switch_workspaces,
            r.exclude_workspaces@ == ""@,
            r.kill_key == 'q',
    {
        let mut filter_by: Vec<FilterBy> = Vec::new();
        filter_by.push(FilterBy::CurrentMonitor);
        V4Switch {
            modifier: Modifier::Alt,
            key: owned("Tab"),
            filter_by,
            switch_workspaces: false,
            exclude_workspaces: owned(""),
            kill_key: 'q',
        }
    }
}

impl Default for V4Windows {
    fn default() -> (r: Self)
        ensures
            r.scale_bits == io::DEFAULT_SCALE_BITS,
            r.items_per_row == 5,
            r.overview is None,
            r.switch is None,
            r.switch_2 is None,
    {
        V4Windows {
            scale_bits: io::DEFAULT_SCALE_BITS,
            items_per_row: 5,
            overview: None,
            switch: None,
            switch_2: None,
        }
    }
}

impl Default for V4Config {
    fn default() -> (r: Self)
        ensures
            r.version == 0,
            r.windows is None,
    {
        V4Config { version: 0, windows: None }
    }
}

/// A format-4 engine that equals a preset (same key, name and url) becomes
/// that preset; any other stays custom.
pub open spec fn v4_engine_preset(key: char, name: Seq<char>, url: Seq<char>) -> Option<
    io::WebSearchPreset,
> {
    if key == 'g' && name == "Google"@ && url == "https://www.google.com/search?q={}"@ {
        Some(io::WebSearchPreset::Google)
    } else if key == 'w' && name == "Wikipedia"@ && url
        == "https://en.wikipedia.org/wiki/Special:Search?search={}"@ {
        Some(io::WebSearchPreset::Wikipedia)
    } else if key == 'r' && name == "Reddit"@ && url == "https://www.reddit.com/search?q={}"@ {
        Some(io::WebSearchPreset::Reddit)
    } else if key == 's' && name == "Startpage"@ && url
        == "https://www.startpage.com/sp/search?query={}"@ {
        Some(io::WebSearchPreset::Startpage)
    } else if key == 'd' && name == "DuckDuckGo"@ && url == "https://duckduckgo.com/?q={}"@ {
        Some(io::WebSearchPreset::DuckDuckGo)
    } else if key == 'b' && name == "Bing"@ && url == "https://www.bing.com/search?q={}"@ {
        Some(io::WebSearchPreset::Bing)
    } else if key == 'y' && name == "YouTube"@ && url
        == "https://www.youtube.com/results?search_query={}"@ {
        Some(io::WebSearchPreset::YouTube)
    } else if key == 'c' && name == "ChatGpt"@ && url == "https://chatgpt.com/?q={}"@ {
        Some(io::WebSearchPreset::ChatGpt)
    } else {
        None
    }
}

pub open spec fn v4_engine_from(v: V4SearchEngine, r: io::WebSearch) -> bool {
    match v4_engine_preset(v.key, v.name@, v.url@) {
        Some(p) => r == io::WebSearch::Preset(p),
        None => r matches io::WebSearch::Custom(c) && c.key == v.key && c.name == v.name && c.url
            == v.url,
    }
}

pub open spec fn v4_action_from(v: V4ActionsPluginAction, r: io::ActionsPluginAction) -> bool {
    match v {
        V4ActionsPluginAction::LockScreen => r == io::ActionsPluginAction::Preset(
            io::ActionsPluginActionPreset::LockScreen,
        ),
        V4ActionsPluginAction::Hibernate => r == io::ActionsPluginAction::Preset(
            io::ActionsPluginActionPreset::Hibernate,
        ),
        V4ActionsPluginAction::Logout => r == io::ActionsPluginAction::Preset(
            io::ActionsPluginActionPreset::Logout,
        ),
        V4ActionsPluginAction::Reboot => r == io::ActionsPluginAction::Preset(
            io::ActionsPluginActionPreset::Reboot,
        ),
        V4ActionsPluginAction::Shutdown => r == io::ActionsPluginAction::Preset(
            io::ActionsPluginActionPreset::Shutdown,
        ),
        V4ActionsPluginAction::Suspend => r == io::ActionsPluginAction::Preset(
            io::ActionsPluginActionPreset::Suspend,
        ),
        V4ActionsPluginAction::Custom(c) => r matches io::ActionsPluginAction::Custom(rc)
            && rc.command == c.command && rc.details == c.details && rc.icon == Some(c.icon) && (
        if c.names@.len() > 0 {
            rc.name@ == c.names@[0]@
        } else {
            rc.name@ == "unnamed"@
        }),
    }
}

pub open spec fn v4_plugins_from(v: V4Plugins, r: io::Plugins) -> bool {
    &&& r.applications == match v.applications {
        Some(a) => Some(io::ApplicationsPluginConfig { run_cache_weeks: a.run_cache_weeks }),
        None => None,
    }
    &&& r.terminal == v.terminal
    &&& r.shell == v.shell
    &&& r.path == v.path
    &&& match (v.calc, r.calc) {
        (Some(c), Some(rc)) => rc.prefix == c.prefix,
        (None, None) => true,
        _ => false,
    }
    &&& match (v.websearch, r.websearch) {
        (Some(w), Some(rw)) => w.engines@.len() == rw.engines@.len() && forall|i: int|
            0 <= i < w.engines@.len() ==> v4_engine_from(#[trigger] w.engines@[i], rw.engines@[i]),
        (None, None) => true,
        _ => false,
    }
    &&& match (v.actions, r.actions) {
        (Some(a), Some(ra)) => a.actions@.len() == ra.actions@.len() && forall|i: int|
            0 <= i < a.actions@.len() ==> v4_action_from(#[trigger] a.actions@[i], ra.actions@[i]),
        (None, None) => true,
        _ => false,
    }
}

pub open spec fn v4_launcher_from(v: V4Launcher, r: io::Launcher) -> bool {
    &&& r.default_terminal == v.default_terminal
    &&& r.launch_modifier == v.launch_modifier
    &&& r.max_items == v.max_items
    &&& r.width == v.width
    &&& r.show_when_empty == v.show_when_empty
    &&& v4_plugins_from(v.plugins, r.plugins)
}

/// Settings new in format 5 get their defaults.
pub open spec fn v4_overview_from(v: V4Overview, r: io::Overview) -> bool {
    &&& r.key == v.key
    &&& r.top_offset == v.top_offset
    &&& r.modifier == v.modifier
    &&& r.filter_by == v.filter_by
    &&& v4_launcher_from(v.launcher, r.launcher)
    &&& r.exclude_workspaces == v.exclude_workspaces
    &&& r.live_preview
}

pub open spec fn v4_switch_from(v: V4Switch, r: io::Switch) -> bool {
    &&& r.key == v.key
    &&& r.modifier == v.modifier
    &&& r.filter_by == v.filter_by
    &&& r.switch_workspaces == v.switch_workspaces
    &&& r.exclude_workspaces == v.exclude_workspaces
    &&& r.kill_key == v.kill_key
    &&& r.live_preview
}

pub open spec fn v4_opt_switch_from(v: Option<V4Switch>, r: Option<io::Switch>) -> bool {
    match (v, r) {
        (Some(a), Some(b)) => v4_switch_from(a, b),
        (None, None) => true,
        _ => false,
    }
}

pub open spec fn v4_windows_from(v: V4Windows, r: io::Windows) -> bool {
    &&& r.scale_bits == v.scale_bits
    &&& r.items_per_row == v.items_per_row
    &&& r.live_preview_refresh_rate == 300
    &&& v4_opt_switch_from(v.switch, r.switch)
    &&& v4_opt_switch_from(v.switch_2, r.switch_2)
    &&& match (v.overview, r.overview) {
        (Some(a), Some(b)) => v4_overview_from(a, b),
        (None, None) => true,
        _ => false,
    }
}

pub open spec fn v4_config_from(v: V4Config, r: io::Config) -> bool {
    &&& r.version == V4_NEXT_CONFIG_VERSION
    &&& match (v.windows, r.windows) {
        (Some(a), Some(b)) => v4_windows_from(a, b),
        (None, None) => true,
        _ => false,
    }
}

/// Migrating a format-4 search engine and reading it back keeps its key and
/// url, and its name up to letter case: only the `ChatGpt` preset is
/// renamed, to `ChatGPT`, and both read the same in (ASCII) lower case.
pub proof fn law_engine_migration_keeps_key_url_and_name(
    v: V4SearchEngine,
    w: io::WebSearch,
    n: SearchEngine,
)
    requires
        v4_engine_from(v, w),
        engine_from(w, n),
    ensures
        n.key == v.key,
        n.url@ == v.url@,
        n.name@ == v.name@ || (v.name@ == "ChatGpt"@ && n.name@ == "ChatGPT"@),
        ascii_lower(n.name@) == ascii_lower(v.name@),
{
    if n.name@ != v.name@ {
        reveal_strlit("ChatGpt");
        reveal_strlit("ChatGPT");
        assert(ascii_lower("ChatGpt"@) =~= ascii_lower("ChatGPT"@));
    }
}

fn is_preset(e: &V4SearchEngine, key: char, name: &str, url: &str) -> (r: bool)
    ensures
        r == (e.key == key && e.name@ == name@ && e.url@ == url@),
{
    e.key == key && str_eq(e.name.as_str(), name) && str_eq(e.url.as_str(), url)
}

impl V4SearchEngine {
    /// The format-5 engine: a preset when all of key, name and url match it.
    pub fn migrate(self) -> (r: io::WebSearch)
        ensures
            v4_engine_from(self, r),
    {
        let preset = if is_preset(&self, 'g', "Google", "https://www.google.com/search?q={}") {
            Some(io::WebSearchPreset::Google)
        } else if is_preset(
            &self,
            'w',
            "Wikipedia",
            "https://en.wikipedia.org/wiki/Special:Search?search={}",
        ) {
            Some(io::WebSearchPreset::Wikipedia)
        } else if is_preset(&self, 'r', "Reddit", "https://www.reddit.com/search?q={}") {
            Some(io::WebSearchPreset::Reddit)
        } else if is_preset(
            &self,
            's',
            "Startpage",
            "https://www.startpage.com/sp/search?query={}",
        ) {
            Some(io::WebSearchPreset::Startpage)
        } else if is_preset(&self, 'd', "DuckDuckGo", "https://duckduckgo.com/?q={}") {
            Some(io::WebSearchPreset::DuckDuckGo)
        } else if is_preset(&self, 'b', "Bing", "https://www.bing.com/search?q={}") {
            Some(io::WebSearchPreset::Bing)
        } else if is_preset(
            &self,
            'y',
            "YouTube",
            "https://www.youtube.com/results?search_query={}",
        ) {
            Some(io::WebSearchPreset::YouTube)
        } else if is_preset(&self, 'c', "ChatGpt", "https://chatgpt.com/?q={}") {
            Some(io::WebSearchPreset::ChatGpt)
        } else {
            None
        };
        match preset {
            Some(p) => io::WebSearch::Preset(p),
            None => io::WebSearch::Custom(
                io::WebSearchCustom { key: self.key, name: self.name, url: self.url },
            ),
        }
    }
}

impl V4ActionsPluginAction {
    /// The format-5 action; a custom action is named by its first name, or
    /// `unnamed`.
    pub fn migrate(self) -> (r: io::ActionsPluginAction)
        ensures
            v4_action_from(self, r),
    {
        match self {
            V4ActionsPluginAction::Suspend => io::ActionsPluginAction::Preset(
                io::ActionsPluginActionPreset::Suspend,
            ),
            V4ActionsPluginAction::Hibernate => io::ActionsPluginAction::Preset(
                io::ActionsPluginActionPreset::Hibernate,
            ),
            V4ActionsPluginAction::LockScreen => io::ActionsPluginAction::Preset(
                io::ActionsPluginActionPreset::LockScreen,
            ),
            V4ActionsPluginAction::Logout => io::ActionsPluginAction::Preset(
                io::ActionsPluginActionPreset::Logout,
            ),
            V4ActionsPluginAction::Reboot => io::ActionsPluginAction::Preset(
                io::ActionsPluginActionPreset::Reboot,
            ),
            V4ActionsPluginAction::Shutdown => io::ActionsPluginAction::Preset(
                io::ActionsPluginActionPreset::Shutdown,
            ),
            V4ActionsPluginAction::Custom(c) => {
                let name = if c.names.len() > 0 {
                    owned(c.names[0].as_str())
                } else {
                    owned("unnamed")
                };
                io::ActionsPluginAction::Custom(
                    io::ActionsPluginActionCustom {
                        command: c.command,
                        details: c.details,
                        icon: Some(c.icon),
                        name,
                    },
                )
            },
        }
    }
}

impl V4Plugins {
    pub fn migrate(self) -> (r: io::Plugins)
        ensures
            v4_plugins_from(self, r),
    {
        let websearch = match self.websearch {
            Some(w) => {
                let ghost orig = w.engines@;
                let mut rest = w.engines;
                let mut engines: Vec<io::WebSearch> = Vec::new();
                while rest.len() > 0
                    invariant
                        engines@.len() + rest@.len() == orig.len(),
                        rest@ == orig.subrange(engines@.len() as int, orig.len() as int),
                        forall|i: int|
                            0 <= i < engines@.len() ==> v4_engine_from(
                                #[trigger] orig[i],
                                engines@[i],
                            ),
                    decreases rest@.len(),
                {
                    let e = rest.remove(0);
                    engines.push(e.migrate());
                    assert(rest@ =~= orig.subrange(engines@.len() as int, orig.len() as int));
                }
                Some(io::WebSearchConfig { engines })
            },
            None => None,
        };
        let actions = match self.actions {
            Some(a) => {
                let ghost orig = a.actions@;
                let mut rest = a.actions;
                let mut actions: Vec<io::ActionsPluginAction> = Vec::new();
                while rest.len() > 0
                    invariant
                        actions@.len() + rest@.len() == orig.len(),
                        rest@ == orig.subrange(actions@.len() as int, orig.len() as int),
                        forall|i: int|
                            0 <= i < actions@.len() ==> v4_action_from(
                                #[trigger] orig[i],
                                actions@[i],
                            ),
                    decreases rest@.len(),
                {
                    let x = rest.remove(0);
                    actions.push(x.migrate());
                    assert(rest@ =~= orig.subrange(actions@.len() as int, orig.len() as int));
                }
                Some(io::ActionsPluginConfig { actions })
            },
            None => None,
        };
        io::Plugins {
            applications: match self.applications {
                Some(a) => Some(io::ApplicationsPluginConfig { run_cache_weeks: a.run_cache_weeks }),
                None => None,
            },
            calc: match self.calc {
                Some(c) => Some(io::CalcPluginConfig { prefix: c.prefix }),
                None => None,
            },
            terminal: self.terminal,
            shell: self.shell,
            path: self.path,
            actions,
            websearch,
        }
    }
}

impl V4Launcher {
    pub fn migrate(self) -> (r: io::Launcher)
        ensures
            v4_launcher_from(self, r),
    {
        io::Launcher {
            default_terminal: self.default_terminal,
            launch_modifier: self.launch_modifier,
            max_items: self.max_items,
            width: self.width,
            show_when_empty: self.show_when_empty,
            plugins: self.plugins.migrate(),
        }
    }
}

impl V4Overview {
    pub fn migrate(self) -> (r: io::Overview)
        ensures
            v4_overview_from(self, r),
    {
        io::Overview {
            key: self.key,
            top_offset: self.top_offset,
            modifier: self.modifier,
            filter_by: self.filter_by,
            launcher: self.launcher.migrate(),
            exclude_workspaces: self.exclude_workspaces,
            live_preview: true,
        }
    }
}

impl V4Switch {
    pub fn migrate(self) -> (r: io::Switch)
        ensures
            v4_switch_from(self, r),
    {
        io::Switch {
            key: self.key,
            modifier: self.modifier,
            filter_by: self.filter_by,
            switch_workspaces: self.switch_workspaces,
            exclude_workspaces: self.exclude_workspaces,
            kill_key: self.kill_key,
            live_preview: true,
        }
    }
}

fn migrate_v4_switch(v: Option<V4Switch>) -> (r: Option<io::Switch>)
    ensures
        v4_opt_switch_from(v, r),
{
    match v {
        Some(s) => Some(s.migrate()),
        None => None,
    }
}

impl V4Windows {
    pub fn migrate(self) -> (r: io::Windows)
        ensures
            v4_windows_from(self, r),
    {
        io::Windows {
            scale_bits: self.scale_bits,
            items_per_row: self.items_per_row,
            switch: migrate_v4_switch(self.switch),
            switch_2: migrate_v4_switch(self.switch_2),
            overview: match self.overview {
                Some(o) => Some(o.migrate()),
                None => None,
            },
            live_preview_refresh_rate: 300,
        }
    }
}

impl V4Config {
    /// The format-5 configuration of a format-4 file.
    pub fn migrate(self) -> (r: io::Config)
        ensures
            v4_config_from(self, r),
    {
        io::Config {
            windows: match self.windows {
                Some(w) => Some(w.migrate()),
                None => None,
            },
            version: V4_NEXT_CONFIG_VERSION,
        }
    }
}

// ---------------------------------------------------------------------------
// Formats 2 and 3
// ---------------------------------------------------------------------------

/// Format version that format-2 files migrate to.
pub const V2_NEXT_CONFIG_VERSION: u64 = 3;

#[derive(Debug)]
pub struct V2Config {
    pub layerrules: bool,
    pub kill_bind: String,
    pub windows: Option<V2Windows>,
    pub version: Option<u64>,
}

#[derive(Debug)]
pub struct V2Windows {
    /// Bit pattern of the `f64` scale factor.
    pub scale_bits: u64,
    pub items_per_row: u8,
    pub overview: Option<V2Overview>,
    pub switch: Option<V3Switch>,
}

#[derive(Debug)]
pub struct V2Overview {
    pub launcher: V2Launcher,
    pub key: String,
    pub modifier: Modifier,
    pub filter_by: Vec<FilterBy>,
    pub hide_filtered: bool,
}

#[derive(Debug)]
pub struct V2Launcher {
    pub default_terminal: Option<String>,
    pub launch_modifier: Modifier,
    pub width: u32,
    pub max_items: u8,
    pub show_when_empty: bool,
    pub plugins: V2Plugins,
}

#[derive(Debug)]
pub struct V2Plugins {
    pub applications: Option<V4ApplicationsPluginConfig>,
    pub terminal: Option<io::EmptyConfig>,
    pub shell: Option<io::EmptyConfig>,
    pub websearch: Option<V4WebSearchConfig>,
    pub calc: Option<io::EmptyConfig>,
    pub path: Option<io::EmptyConfig>,
}

#[derive(Debug)]
pub struct V3Config {
    pub version: u64,
    pub windows: Option<V3Windows>,
}

#[derive(Debug)]
pub struct V3Windows {
    /// Bit pattern of the `f64` scale factor.
    pub scale_bits: u64,
    pub items_per_row: u8,
    pub overview: Option<V3Overview>,
    pub switch: Option<V3Switch>,
    pub switch_2: Option<V3Switch>,
}

#[derive(Debug)]
pub struct V3Overview {
    pub launcher: V4Launcher,
    pub key: String,
    pub modifier: Modifier,
    pub filter_by: Vec<FilterBy>,
    pub hide_filtered: bool,
    pub exclude_special_workspaces: String,
}

#[derive(Debug)]
pub struct V3Switch {
    pub modifier: Modifier,
    pub key: String,
    pub filter_by: Vec<FilterBy>,
    pub switch_workspaces: bool,
    pub exclude_special_workspaces: String,
}

/// The calculator becomes its default configuration, and the actions
/// plugin, new in format 4, is enabled with its defaults.
pub open spec fn v2_plugins_from(v: V2Plugins, r: V4Plugins) -> bool {
    &&& r.applications == v.applications
    &&& r.terminal == v.terminal
    &&& r.shell == v.shell
    &&& r.websearch == v.websearch
    &&& (match (v.calc, r.calc) {
        (Some(_), Some(c)) => c.prefix is None,
        (None, None) => true,
        _ => false,
    })
    &&& r.path == v.path
    &&& r.actions matches Some(a) && a.is_default()
}

/// The width keeps its low 16 bits.
pub open spec fn v2_launcher_from(v: V2Launcher, r: V4Launcher) -> bool {
    &&& r.default_terminal == v.default_terminal
    &&& r.launch_modifier == v.launch_modifier
    &&& r.width == v.width as u16
    &&& r.show_when_empty == v.show_when_empty
    &&& r.max_items == v.max_items
    &&& v2_plugins_from(v.plugins, r.plugins)
}

pub open spec fn v2_overview_from(v: V2Overview, r: V3Overview) -> bool {
    &&& r.key == v.key
    &&& r.modifier == v.modifier
    &&& r.filter_by == v.filter_by
    &&& r.hide_filtered == v.hide_filtered
    &&& v2_launcher_from(v.launcher, r.launcher)
    &&& r.exclude_special_workspaces@ == ""@
}

pub open spec fn v2_windows_from(v: V2Windows, r: V3Windows) -> bool {
    &&& r.scale_bits == v.scale_bits
    &&& r.items_per_row == v.items_per_row
    &&& r.switch == v.switch
    &&& r.switch_2 is None
    &&& match (v.overview, r.overview) {
        (Some(a), Some(b)) => v2_overview_from(a, b),
        (None, None) => true,
        _ => false,
    }
}

pub open spec fn v2_config_from(v: V2Config, r: V3Config) -> bool {
    &&& r.version == V2_NEXT_CONFIG_VERSION
    &&& match (v.windows, r.windows) {
        (Some(a), Some(b)) => v2_windows_from(a, b),
        (None, None) => true,
        _ => false,
    }
}

/// Migrating a format-2 file keeps its switch settings as they were (the
/// second switch, new in format 3, is left off), keeps the scale, the items
/// per row and whether there is an overview, and names format 3.
pub proof fn law_format2_migration_keeps_switch(v: V2Config, r: V3Config)
    requires
        v2_config_from(v, r),
    ensures
        r.version == 3,
        r.windows is Some <==> v.windows is Some,
        v.windows is Some ==> r.windows->0.switch == v.windows->0.switch,
        v.windows is Some ==> r.windows->0.switch_2 is None,
        v.windows is Some ==> r.windows->0.scale_bits == v.windows->0.scale_bits
            && r.windows->0.items_per_row == v.windows->0.items_per_row,
        v.windows is Some ==> (r.windows->0.overview is Some <==> v.windows->0.overview is Some),
{
}

impl V2Plugins {
    pub fn migrate(self) -> (r: V4Plugins)
        ensures
            v2_plugins_from(self, r),
    {
        V4Plugins {
            applications: self.applications,
            terminal: self.terminal,
            shell: self.shell,
            websearch: self.websearch,
            calc: match self.calc {
                Some(_) => Some(V4CalcPluginConfig { prefix: None }),
                None => None,
            },
            path: self.path,
            actions: Some(V4ActionsPluginConfig::default_actions()),
        }
    }
}

impl V2Launcher {
    pub fn migrate(self) -> (r: V4Launcher)
        ensures
            v2_launcher_from(self, r),
    {
        V4Launcher {
            default_terminal: self.default_terminal,
            launch_modifier: self.launch_modifier,
            width: self.width as u16,
            show_when_empty: self.show_when_empty,
            max_items: self.max_items,
            plugins: self.plugins.migrate(),
        }
    }
}

impl V2Overview {
    pub fn migrate(self) -> (r: V3Overview)
        ensures
            v2_overview_from(self, r),
    {
        V3Overview {
            key: self.key,
            modifier: self.modifier,
            filter_by: self.filter_by,
            hide_filtered: self.hide_filtered,
            launcher: self.launcher.migrate(),
            exclude_special_workspaces: owned(""),
        }
    }
}

impl V2Windows {
    pub fn migrate(self) -> (r: V3Windows)
        ensures
            v2_windows_from(self, r),
    {
        V3Windows {
            scale_bits: self.scale_bits,
            items_per_row: self.items_per_row,
            switch: self.switch,
            switch_2: None,
            overview: match self.overview {
                Some(o) => Some(o.migrate()),
                None => None,
            },
        }
    }
}

impl V2Config {
    /// The format-3 configuration of a format-2 file.
    pub fn migrate(self) -> (r: V3Config)
        ensures
            v2_config_from(self, r),
    {
        V3Config {
            windows: match self.windows {
                Some(w) => Some(w.migrate()),
                None => None,
            },
            version: V2_NEXT_CONFIG_VERSION,
        }
    }
}

/// What the old configuration file says once its content moved elsewhere.
pub open spec fn moved_message(new_file: Seq<char>, backup_file: Seq<char>) -> Seq<char> {
    "Config was moved to '"@ + new_file + "'\nOld config is at '"@ + backup_file + "'\n"@
}

/// The note left in the old configuration file after migration moved it to
/// `new_file`, with the old content kept at `backup_file`.
pub fn moved_config_message(new_file: &str, backup_file: &str) -> (r: String)
    ensures
        r@ == moved_message(new_file@, backup_file@),
{
    let mut m = owned("Config was moved to '");
    m.append(new_file);
    m.append("'\nOld config is at '");
    m.append(backup_file);
    m.append("'\n");
    m
}

} // verus!
