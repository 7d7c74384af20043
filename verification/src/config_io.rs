//! The configuration as it is written in the configuration file, with the
//! default of every setting that the file may leave out.
use vstd::prelude::*;
use crate::config::Modifier;
use crate::text::owned;

verus! {

/// Version of the configuration file format that this library reads.
pub const CURRENT_CONFIG_VERSION: u64 = 5;

/// Bit pattern of the default scale factor `8.5_f64`.
pub const DEFAULT_SCALE_BITS: u64 = 0x4021_0000_0000_0000;

/// Which clients a view shows.
#[derive(Debug, Clone, Copy, PartialEq, Eq, Structural)]
pub enum FilterBy {
    SameClass,
    CurrentWorkspace,
    CurrentMonitor,
}

/// A plugin switch without settings.
#[derive(Debug, Clone, Copy, PartialEq, Eq, Structural)]
pub struct EmptyConfig {}

#[derive(Debug, Clone)]
pub struct Config {
    pub version: u64,
    pub windows: Option<Windows>,
}

#[derive(Debug, Clone)]
pub struct Windows {
    /// Bit pattern of the `f64` scale factor.
    pub scale_bits: u64,
    pub items_per_row: u8,
    pub live_preview_refresh_rate: u16,
    pub overview: Option<Overview>,
    pub switch: Option<Switch>,
    pub switch_2: Option<Switch>,
}

#[derive(Debug, Clone)]
pub struct Overview {
    pub launcher: Launcher,
    pub key: String,
    pub top_offset: u16,
    pub modifier: Modifier,
    pub filter_by: Vec<FilterBy>,
    pub exclude_workspaces: String,
    pub live_preview: bool,
}

#[derive(Debug, Clone)]
pub struct Launcher {
    pub default_terminal: Option<String>,
    pub launch_modifier: Modifier,
    pub width: u16,
    pub max_items: u8,
    pub show_when_empty: bool,
    pub plugins: Plugins,
}

/// Plugins have no default of their own: a plugin left out is disabled.
#[derive(Debug, Clone)]
pub struct Plugins {
    pub applications: Option<ApplicationsPluginConfig>,
    pub terminal: Option<EmptyConfig>,
    pub shell: Option<EmptyConfig>,
    pub websearch: Option<WebSearchConfig>,
    pub calc: Option<CalcPluginConfig>,
    pub path: Option<EmptyConfig>,
    pub actions: Option<ActionsPluginConfig>,
}

#[derive(Debug, Clone, Copy, PartialEq, Eq, Structural)]
pub struct ApplicationsPluginConfig {
    pub run_cache_weeks: u8,
}

#[derive(Debug, Clone)]
pub struct CalcPluginConfig {
    pub prefix: Option<String>,
}

#[derive(Debug, Clone)]
pub struct ActionsPluginConfig {
    pub actions: Vec<ActionsPluginAction>,
}

#[derive(Debug, Clone)]
pub enum ActionsPluginAction {
    Preset(ActionsPluginActionPreset),
    Custom(ActionsPluginActionCustom),
}

#[derive(Debug, Clone, Copy, PartialEq, Eq, Structural)]
pub enum ActionsPluginActionPreset {
    LockScreen,
    Hibernate,
    Logout,
    Reboot,
    Shutdown,
    Suspend,
}

#[derive(Debug, Clone)]
pub struct ActionsPluginActionCustom {
    pub name: String,
    pub details: String,
    pub command: String,
    pub icon: Option<String>,
}

#[derive(Debug, Clone)]
pub struct WebSearchConfig {
    pub engines: Vec<WebSearch>,
}

#[derive(Debug, Clone)]
pub enum WebSearch {
    Preset(WebSearchPreset),
    Custom(WebSearchCustom),
}

#[derive(Debug, Clone, Copy, PartialEq, Eq, Structural)]
pub enum WebSearchPreset {
    Google,
    Wikipedia,
    Reddit,
    Startpage,
    DuckDuckGo,
    Bing,
    YouTube,
    ChatGpt,
}

#[derive(Debug, Clone)]
pub struct WebSearchCustom {
    pub url: String,
    pub name: String,
    pub key: char,
}

#[derive(Debug, Clone)]
pub struct Switch {
    pub modifier: Modifier,
    pub key: String,
    pub filter_by: Vec<FilterBy>,
    pub switch_workspaces: bool,
    pub exclude_workspaces: String,
    pub kill_key: char,
    pub live_preview: bool,
}

// ---------------------------------------------------------------------------
// Defaults
// ---------------------------------------------------------------------------

/// The views of an optional string.
pub open spec fn opt_view(o: Option<String>) -> Option<Seq<char>> {
    match o {
        Some(s) => Some(s@),
        None => None,
    }
}

impl ActionsPluginActionCustom {
    /// Custom action with the given texts.
    pub open spec fn has(self, name: Seq<char>, details: Seq<char>, command: Seq<char>, icon: Seq<
        char,
    >) -> bool {
        &&& self.name@ == name
        &&& self.details@ == details
        &&& self.command@ == command
        &&& self.icon matches Some(i) && i@ == icon
    }
}

pub open spec fn kill_command() -> Seq<char> {
    "pkill \"{}\" && notify-send hyprshell \"stopped {}\""@
}

pub open spec fn reload_command() -> Seq<char> {
    "sleep 1; hyprshell socat '\"Restart\"' && notify-send \"Reloaded hyprshell\""@
}

impl ActionsPluginConfig {
    /// The default actions: the six presets, then `Kill` and
    /// `Reload Hyprshell`.
    pub open spec fn is_default(self) -> bool {
        let a = self.actions@;
        &&& a.len() == 8
        &&& a[0] == ActionsPluginAction::Preset(ActionsPluginActionPreset::LockScreen)
        &&& a[1] == ActionsPluginAction::Preset(ActionsPluginActionPreset::Hibernate)
        &&& a[2] == ActionsPluginAction::Preset(ActionsPluginActionPreset::Logout)
        &&& a[3] == ActionsPluginAction::Preset(ActionsPluginActionPreset::Reboot)
        &&& a[4] == ActionsPluginAction::Preset(ActionsPluginActionPreset::Shutdown)
        &&& a[5] == ActionsPluginAction::Preset(ActionsPluginActionPreset::Suspend)
        &&& a[6] matches ActionsPluginAction::Custom(c) && c.has(
            "Kill"@,
            "Kill a process by name"@,
            kill_command(),
            "remove"@,
        )
        &&& a[7] matches ActionsPluginAction::Custom(c) && c.has(
            "Reload Hyprshell"@,
            "Reload Hyprshell"@,
            reload_command(),
            "system-restart"@,
        )
    }
}

impl Default for ActionsPluginConfig {
    fn default() -> (r: Self)
        ensures
            r.is_default(),
    {
        let mut actions: Vec<ActionsPluginAction> = Vec::new();
        actions.push(ActionsPluginAction::Preset(ActionsPluginActionPreset::LockScreen));
        actions.push(ActionsPluginAction::Preset(ActionsPluginActionPreset::Hibernate));
        actions.push(ActionsPluginAction::Preset(ActionsPluginActionPreset::Logout));
        actions.push(ActionsPluginAction::Preset(ActionsPluginActionPreset::Reboot));
        actions.push(ActionsPluginAction::Preset(ActionsPluginActionPreset::Shutdown));
        actions.push(ActionsPluginAction::Preset(ActionsPluginActionPreset::Suspend));
        actions.push(
            ActionsPluginAction::Custom(
                ActionsPluginActionCustom {
                    name: owned("Kill"),
                    details: owned("Kill a process by name"),
                    command: owned("pkill \"{}\" && notify-send hyprshell \"stopped {}\""),
                    icon: Some(owned("remove")),
                },
            ),
        );
        actions.push(
            ActionsPluginAction::Custom(
                ActionsPluginActionCustom {
                    name: owned("Reload Hyprshell"),
                    details: owned("Reload Hyprshell"),
                    command: owned(
                        "sleep 1; hyprshell socat '\"Restart\"' && notify-send \"Reloaded hyprshell\"",
                    ),
                    icon: Some(owned("system-restart")),
                },
            ),
        );
        ActionsPluginConfig { actions }
    }
}

impl WebSearchConfig {
    /// The default engines: Google, then Wikipedia.
    pub open spec fn is_default(self) -> bool {
        &&& self.engines@.len() == 2
        &&& self.engines@[0] == WebSearch::Preset(WebSearchPreset::Google)
        &&& self.engines@[1] == WebSearch::Preset(WebSearchPreset::Wikipedia)
    }
}

impl Default for WebSearchConfig {
    fn default() -> (r: Self)
        ensures
            r.is_default(),
    {
        let mut engines: Vec<WebSearch> = Vec::new();
        engines.push(WebSearch::Preset(WebSearchPreset::Google));
        engines.push(WebSearch::Preset(WebSearchPreset::Wikipedia));
        WebSearchConfig { engines }
    }
}

impl Default for ApplicationsPluginConfig {
    fn default() -> (r: Self)
        ensures
            r.run_cache_weeks == 8,
    {
        ApplicationsPluginConfig { run_cache_weeks: 8 }
    }
}

impl Default for CalcPluginConfig {
    fn default() -> (r: Self)
        ensures
            r.prefix is None,
    {
        CalcPluginConfig { prefix: None }
    }
}

impl Default for EmptyConfig {
    fn default() -> (r: Self) {
        EmptyConfig {  }
    }
}

impl Plugins {
    /// Applications, terminal, web search, calculator, path and actions
    /// with their defaults; shell disabled.
    pub open spec fn is_default(self) -> bool {
        &&& self.applications == Some(ApplicationsPluginConfig { run_cache_weeks: 8 })
        &&& self.terminal is Some
        &&& self.shell is None
        &&& self.websearch matches Some(w) && w.is_default()
        &&& self.calc matches Some(c) && c.prefix is None
        &&& self.path is Some
        &&& self.actions matches Some(a) && a.is_default()
    }
}

impl Launcher {
    pub open spec fn is_default(self) -> bool {
        &&& self.default_terminal is None
        &&& self.launch_modifier == Modifier::Ctrl
        &&& self.width == 650
        &&& self.max_items == 5
        &&& self.show_when_empty
        &&& self.plugins.is_default()
    }
}

impl Default for Launcher {
    fn default() -> (r: Self)
        ensures
            r.is_default(),
    {
        Launcher {
            default_terminal: None,
            launch_modifier: Modifier::Ctrl,
            width: 650,
            max_items: 5,
            show_when_empty: true,
            plugins: Plugins {
                applications: Some(ApplicationsPluginConfig::default()),
                terminal: Some(EmptyConfig {  }),
                shell: None,
                websearch: Some(WebSearchConfig::default()),
                calc: Some(CalcPluginConfig::default()),
                path: Some(EmptyConfig {  }),
                actions: Some(ActionsPluginConfig::default()),
            },
        }
    }
}

impl Overview {
    pub open spec fn is_default(self) -> bool {
        &&& self.launcher.is_default()
        &&& self.key@ == "Super_L"@
        &&& self.top_offset == 410
        &&& self.modifier == Modifier::Super
        &&& self.filter_by@.len() == 0
        &&& self.exclude_workspaces@ == "special:.*"@
        &&& self.live_preview
    }
}

impl Default for Overview {
    fn default() -> (r: Self)
        ensures
            r.is_default(),
    {
        Overview {
            launcher: Launcher::default(),
            key: owned("Super_L"),
            top_offset: 410,
            modifier: Modifier::Super,
            filter_by: Vec::new(),
            exclude_workspaces: owned("special:.*"),
            live_preview: true,
        }
    }
}

impl Switch {
    pub open spec fn is_default(self) -> bool {
        &&& self.modifier == Modifier::Alt
        &&& self.key@ == "Tab"@
        &&& self.filter_by@ == seq![FilterBy::CurrentMonitor]
        &&& !self.switch_workspaces
        &&& self.exclude_workspaces@ == ""@
        &&& self.kill_key == 'q'
        &&& self.live_preview
    }
}

impl Default for Switch {
    fn default() -> (r: Self)
        ensures
            r.is_default(),
    {
        let mut filter_by: Vec<FilterBy> = Vec::new();
        filter_by.push(FilterBy::CurrentMonitor);
        proof {
            assert(filter_by@ =~= seq![FilterBy::CurrentMonitor]);
        }
        Switch {
            modifier: Modifier::Alt,
            key: owned("Tab"),
            filter_by,
            switch_workspaces: false,
            exclude_workspaces: owned(""),
            kill_key: 'q',
            live_preview: true,
        }
    }
}

impl Windows {
    pub open spec fn is_default(self) -> bool {
        &&& self.scale_bits == DEFAULT_SCALE_BITS
        &&& self.items_per_row == 5
        &&& self.live_preview_refresh_rate == 300
        &&& self.overview is None
        &&& self.switch is None
        &&& self.switch_2 is None
    }
}

impl Default for Windows {
    fn default() -> (r: Self)
        ensures
            r.is_default(),
    {
        Windows {
            scale_bits: DEFAULT_SCALE_BITS,
            items_per_row: 5,
            live_preview_refresh_rate: 300,
            overview: None,
            switch: None,
            switch_2: None,
        }
    }
}

impl Default for Config {
    fn default() -> (r: Self)
        ensures
            r.version == CURRENT_CONFIG_VERSION,
            r.windows is None,
    {
        Config { version: CURRENT_CONFIG_VERSION, windows: None }
    }
}

} // verus!
