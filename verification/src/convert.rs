//! From the configuration file to the validated configuration: presets are
//! expanded, filter lists become flags. The conversion never fails.
use vstd::prelude::*;
use crate::config::{
    ActionsPluginAction, ActionsPluginConfig, ApplicationsPluginConfig, CalcPluginConfig, Config,
    Launcher, Modifier, Overview, Plugins, SearchEngine, Switch, WebSearchConfig, Windows,
    WindowsGeneral,
};
use crate::config_io as io;
use crate::text::owned;

verus! {

pub open spec fn filter_set(f: Seq<io::FilterBy>, which: io::FilterBy) -> bool {
    f.contains(which)
}

/// The alternative launch modifier: `Ctrl` when launching with `Alt`,
/// `Alt` otherwise.
pub open spec fn alt_modifier(m: Modifier) -> Modifier {
    if m == Modifier::Alt {
        Modifier::Ctrl
    } else {
        Modifier::Alt
    }
}

pub open spec fn switch_from(v: io::Switch, r: Switch) -> bool {
    &&& r.modifier == v.modifier
    &&& r.key == v.key
    &&& r.filter_by_same_class == filter_set(v.filter_by@, io::FilterBy::SameClass)
    &&& r.filter_by_current_workspace == filter_set(v.filter_by@, io::FilterBy::CurrentWorkspace)
    &&& r.filter_by_current_monitor == filter_set(v.filter_by@, io::FilterBy::CurrentMonitor)
    &&& r.switch_workspaces == v.switch_workspaces
    &&& r.exclude_workspaces == v.exclude_workspaces
    &&& r.kill_key == v.kill_key
    &&& r.live_preview == v.live_preview
}

pub open spec fn preset_engine_name(p: io::WebSearchPreset) -> Seq<char> {
    match p {
        io::WebSearchPreset::Bing => "Bing"@,
        io::WebSearchPreset::Google => "Google"@,
        io::WebSearchPreset::Startpage => "Startpage"@,
        io::WebSearchPreset::DuckDuckGo => "DuckDuckGo"@,
        io::WebSearchPreset::Wikipedia => "Wikipedia"@,
        io::WebSearchPreset::ChatGpt => "ChatGPT"@,
        io::WebSearchPreset::YouTube => "YouTube"@,
        io::WebSearchPreset::Reddit => "Reddit"@,
    }
}

pub open spec fn preset_engine_key(p: io::WebSearchPreset) -> char {
    match p {
        io::WebSearchPreset::Bing => 'b',
        io::WebSearchPreset::Google => 'g',
        io::WebSearchPreset::Startpage => 's',
        io::WebSearchPreset::DuckDuckGo => 'd',
        io::WebSearchPreset::Wikipedia => 'w',
        io::WebSearchPreset::ChatGpt => 'c',
        io::WebSearchPreset::YouTube => 'y',
        io::WebSearchPreset::Reddit => 'r',
    }
}

pub open spec fn preset_engine_url(p: io::WebSearchPreset) -> Seq<char> {
    match p {
        io::WebSearchPreset::Bing => "https://www.bing.com/search?q={}"@,
        io::WebSearchPreset::Google => "https://www.google.com/search?q={}"@,
        io::WebSearchPreset::Startpage => "https://www.startpage.com/sp/search?query={}"@,
        io::WebSearchPreset::DuckDuckGo => "https://duckduckgo.com/?q={}"@,
        io::WebSearchPreset::Wikipedia => "https://en.wikipedia.org/wiki/Special:Search?search={}"@,
        io::WebSearchPreset::ChatGpt => "https://chatgpt.com/?q={}"@,
        io::WebSearchPreset::YouTube => "https://www.youtube.com/results?search_query={}"@,
        io::WebSearchPreset::Reddit => "https://www.reddit.com/search?q={}"@,
    }
}

pub open spec fn engine_from(v: io::WebSearch, r: SearchEngine) -> bool {
    match v {
        io::WebSearch::Preset(p) => r.name@ == preset_engine_name(p) && r.key == preset_engine_key(
            p,
        ) && r.url@ == preset_engine_url(p),
        io::WebSearch::Custom(c) => r.name == c.name && r.key == c.key && r.url == c.url,
    }
}

pub open spec fn engines_from(v: Seq<io::WebSearch>, r: Seq<SearchEngine>) -> bool {
    &&& v.len() == r.len()
    &&& forall|i: int| 0 <= i < v.len() ==> engine_from(#[trigger] v[i], r[i])
}

/// `a` has exactly these texts and no children of its own.
pub open spec fn action_text(
    a: ActionsPluginAction,
    name: Seq<char>,
    keywords: Seq<Seq<char>>,
    details: Seq<char>,
    command: Seq<char>,
    icon: Seq<char>,
) -> bool {
    &&& a.name@ == name
    &&& a.keywords@.len() == keywords.len()
    &&& forall|i: int| 0 <= i < keywords.len() ==> (#[trigger] a.keywords@[i])@ == keywords[i]
    &&& a.details_long matches Some(d) && d@ == details
    &&& a.command@ == command
    &&& a.icon matches Some(i) && i@ == icon
}

/// The expansion of a preset action: its texts and its submenu.
pub open spec fn preset_action(p: io::ActionsPluginActionPreset, a: ActionsPluginAction) -> bool {
    match p {
        io::ActionsPluginActionPreset::LockScreen => action_text(
            a,
            "Lock Screen"@,
            seq!["user"@],
            "Lock the screen"@,
            "loginctl lock-session"@,
            "system-lock-screen"@,
        ) && a.children@.len() == 0,
        io::ActionsPluginActionPreset::Hibernate => action_text(
            a,
            "Hibernate"@,
            seq![],
            "Writes RAM to disk, then powers off. Boots on wake"@,
            "systemctl hibernate"@,
            "system-hibernate"@,
        ) && a.children@.len() == 1 && action_text(
            a.children@[0],
            "Hybrid Sleep"@,
            seq![],
            "Writes RAM to disk, then enters low-power sleep. Enables fast wakeup time"@,
            "systemctl hybrid-sleep"@,
            "system-hibernate"@,
        ) && a.children@[0].children@.len() == 0,
        io::ActionsPluginActionPreset::Logout => action_text(
            a,
            "Log Out"@,
            seq!["user"@],
            "Log out of the session"@,
            "loginctl terminate-session self"@,
            "system-log-out"@,
        ) && a.children@.len() == 0,
        io::ActionsPluginActionPreset::Reboot => action_text(
            a,
            "Reboot / Restart"@,
            seq![],
            "Reboot the computer"@,
            "systemctl reboot"@,
            "system-reboot"@,
        ) && a.children@.len() == 0,
        io::ActionsPluginActionPreset::Shutdown => action_text(
            a,
            "Shutdown / Poweroff"@,
            seq![],
            "Shut down the computer"@,
            "systemctl poweroff"@,
            "system-shutdown"@,
        ) && a.children@.len() == 0,
        io::ActionsPluginActionPreset::Suspend => action_text(
            a,
            "Sleep / Suspend"@,
            seq![],
            "Enters low-power sleep"@,
            "systemctl suspend"@,
            "system-suspend"@,
        ) && a.children@.len() == 1 && action_text(
            a.children@[0],
            "Suspend Then Hibernate"@,
            seq![],
            "Low-power sleep, then hibernate after some time"@,
            "systemctl suspend-then-hibernate"@,
            "system-hibernate"@,
        ) && a.children@[0].children@.len() == 0,
    }
}

/// A custom action keeps its name, command and icon; its details are not
/// shown and it has no keywords or submenu.
pub open spec fn action_from(v: io::ActionsPluginAction, a: ActionsPluginAction) -> bool {
    match v {
        io::ActionsPluginAction::Preset(p) => preset_action(p, a),
        io::ActionsPluginAction::Custom(c) => {
            &&& a.name == c.name
            &&& a.keywords@.len() == 0
            &&& a.details_long is None
            &&& a.command == c.command
            &&& a.icon == c.icon
            &&& a.children@.len() == 0
        },
    }
}

pub open spec fn actions_from(v: Seq<io::ActionsPluginAction>, r: Seq<ActionsPluginAction>) -> bool {
    &&& v.len() == r.len()
    &&& forall|i: int| 0 <= i < v.len() ==> action_from(#[trigger] v[i], r[i])
}

pub open spec fn plugins_from(v: io::Plugins, r: Plugins) -> bool {
    &&& r.applications == match v.applications {
        Some(a) => Some(ApplicationsPluginConfig { run_cache_weeks: a.run_cache_weeks }),
        None => None,
    }
    &&& (r.terminal is Some <==> v.terminal is Some)
    &&& (r.shell is Some <==> v.shell is Some)
    &&& (r.path is Some <==> v.path is Some)
    &&& match (v.websearch, r.websearch) {
        (Some(w), Some(rw)) => engines_from(w.engines@, rw.engines@),
        (None, None) => true,
        _ => false,
    }
    &&& match (v.calc, r.calc) {
        (Some(c), Some(rc)) => rc.prefix == c.prefix,
        (None, None) => true,
        _ => false,
    }
    &&& match (v.actions, r.actions) {
        (Some(a), Some(ra)) => actions_from(a.actions@, ra.actions@),
        (None, None) => true,
        _ => false,
    }
}

pub open spec fn launcher_from(v: io::Launcher, r: Launcher) -> bool {
    &&& r.default_terminal == v.default_terminal
    &&& r.launch_modifier == v.launch_modifier
    &&& r.alt_launch_modifier == alt_modifier(v.launch_modifier)
    &&& r.width == v.width
    &&& r.max_items == v.max_items
    &&& r.show_when_empty == v.show_when_empty
    &&& plugins_from(v.plugins, r.plugins)
}

/// The alternative launch modifier never equals the launch modifier: it is
/// `Ctrl` when launching with `Alt` and `Alt` with any other modifier, and
/// the launch modifier itself is kept.
pub proof fn law_alt_launch_modifier_differs(v: io::Launcher, r: Launcher)
    requires
        launcher_from(v, r),
    ensures
        r.launch_modifier == v.launch_modifier,
        r.alt_launch_modifier != r.launch_modifier,
        v.launch_modifier == Modifier::Alt ==> r.alt_launch_modifier == Modifier::Ctrl,
        v.launch_modifier != Modifier::Alt ==> r.alt_launch_modifier == Modifier::Alt,
{
}

pub open spec fn overview_from(v: io::Overview, r: Overview) -> bool {
    &&& launcher_from(v.launcher, r.launcher)
    &&& r.key == v.key
    &&& r.top_offset == v.top_offset
    &&& r.modifier == v.modifier
    &&& r.filter_by_same_class == filter_set(v.filter_by@, io::FilterBy::SameClass)
    &&& r.filter_by_current_workspace == filter_set(v.filter_by@, io::FilterBy::CurrentWorkspace)
    &&& r.filter_by_current_monitor == filter_set(v.filter_by@, io::FilterBy::CurrentMonitor)
    &&& r.exclude_workspaces == v.exclude_workspaces
    &&& r.live_preview == v.live_preview
}

pub open spec fn opt_switch_from(v: Option<io::Switch>, r: Option<Switch>) -> bool {
    match (v, r) {
        (Some(a), Some(b)) => switch_from(a, b),
        (None, None) => true,
        _ => false,
    }
}

pub open spec fn windows_from(v: io::Windows, r: Windows) -> bool {
    &&& r.general == WindowsGeneral {
        scale_bits: v.scale_bits,
        items_per_row: v.items_per_row,
        live_preview_refresh_rate: v.live_preview_refresh_rate,
    }
    &&& opt_switch_from(v.switch, r.switch)
    &&& opt_switch_from(v.switch_2, r.switch_2)
    &&& match (v.overview, r.overview) {
        (Some(a), Some(b)) => overview_from(a, b),
        (None, None) => true,
        _ => false,
    }
}

pub open spec fn config_from(v: io::Config, r: Config) -> bool {
    match (v.windows, r.windows) {
        (Some(a), Some(b)) => windows_from(a, b),
        (None, None) => true,
        _ => false,
    }
}

/// Whether `which` is in the filter list.
pub fn has_filter(filters: &Vec<io::FilterBy>, which: io::FilterBy) -> (r: bool)
    ensures
        r == filter_set(filters@, which),
{
    let mut i: usize = 0;
    while i < filters.len()
        invariant
            i <= filters@.len(),
            forall|j: int| 0 <= j < i ==> filters@[j] != which,
        decreases filters@.len() - i,
    {
        if filters[i] == which {
            assert(filters@[i as int] == which);
            return true;
        }
        i += 1;
    }
    false
}

impl Switch {
    pub fn from_io(value: io::Switch) -> (r: Self)
        ensures
            switch_from(value, r),
    {
        let same_class = has_filter(&value.filter_by, io::FilterBy::SameClass);
        let current_workspace = has_filter(&value.filter_by, io::FilterBy::CurrentWorkspace);
        let current_monitor = has_filter(&value.filter_by, io::FilterBy::CurrentMonitor);
        Switch {
            modifier: value.modifier,
            key: value.key,
            filter_by_same_class: same_class,
            filter_by_current_workspace: current_workspace,
            filter_by_current_monitor: current_monitor,
            switch_workspaces: value.switch_workspaces,
            exclude_workspaces: value.exclude_workspaces,
            kill_key: value.kill_key,
            live_preview: value.live_preview,
        }
    }

    fn from_io_opt(value: Option<io::Switch>) -> (r: Option<Self>)
        ensures
            opt_switch_from(value, r),
    {
        match value {
            Some(v) => Some(Switch::from_io(v)),
            None => None,
        }
    }
}

impl SearchEngine {
    /// Expands a preset engine, or takes a custom one as it is.
    pub fn from_io(value: io::WebSearch) -> (r: Self)
        ensures
            engine_from(value, r),
    {
        match value {
            io::WebSearch::Preset(io::WebSearchPreset::Bing) => SearchEngine {
                name: owned("Bing"),
                key: 'b',
                url: owned("https://www.bing.com/search?q={}"),
            },
            io::WebSearch::Preset(io::WebSearchPreset::Google) => SearchEngine {
                name: owned("Google"),
                key: 'g',
                url: owned("https://www.google.com/search?q={}"),
            },
            io::WebSearch::Preset(io::WebSearchPreset::Startpage) => SearchEngine {
                name: owned("Startpage"),
                key: 's',
                url: owned("https://www.startpage.com/sp/search?query={}"),
            },
            io::WebSearch::Preset(io::WebSearchPreset::DuckDuckGo) => SearchEngine {
                name: owned("DuckDuckGo"),
                key: 'd',
                url: owned("https://duckduckgo.com/?q={}"),
            },
            io::WebSearch::Preset(io::WebSearchPreset::Wikipedia) => SearchEngine {
                name: owned("Wikipedia"),
                key: 'w',
                url: owned("https://en.wikipedia.org/wiki/Special:Search?search={}"),
            },
            io::WebSearch::Preset(io::WebSearchPreset::ChatGpt) => SearchEngine {
                name: owned("ChatGPT"),
                key: 'c',
                url: owned("https://chatgpt.com/?q={}"),
            },
            io::WebSearch::Preset(io::WebSearchPreset::YouTube) => SearchEngine {
                name: owned("YouTube"),
                key: 'y',
                url: owned("https://www.youtube.com/results?search_query={}"),
            },
            io::WebSearch::Preset(io::WebSearchPreset::Reddit) => SearchEngine {
                name: owned("Reddit"),
                key: 'r',
                url: owned("https://www.reddit.com/search?q={}"),
            },
            io::WebSearch::Custom(c) => SearchEngine { name: c.name, key: c.key, url: c.url },
        }
    }
}

impl WebSearchConfig {
    pub fn from_io(value: io::WebSearchConfig) -> (r: Self)
        ensures
            engines_from(value.engines@, r.engines@),
    {
        let ghost orig = value.engines@;
        let mut rest = value.engines;
        let mut engines: Vec<SearchEngine> = Vec::new();
        while rest.len() > 0
            invariant
                engines@.len() + rest@.len() == orig.len(),
                rest@ == orig.subrange(engines@.len() as int, orig.len() as int),
                forall|i: int| 0 <= i < engines@.len() ==> engine_from(#[trigger] orig[i], engines@[i]),
            decreases rest@.len(),
        {
            let e = rest.remove(0);
            engines.push(SearchEngine::from_io(e));
            assert(rest@ =~= orig.subrange(engines@.len() as int, orig.len() as int));
        }
        WebSearchConfig { engines }
    }
}

fn one_keyword(k: &str) -> (r: Vec<String>)
    ensures
        r@.len() == 1,
        r@[0]@ == k@,
{
    let mut v: Vec<String> = Vec::new();
    v.push(owned(k));
    v
}

fn action(
    name: &str,
    keywords: Vec<String>,
    details: &str,
    command: &str,
    icon: &str,
    children: Vec<ActionsPluginAction>,
) -> (r: ActionsPluginAction)
    ensures
        r.name@ == name@,
        r.keywords == keywords,
        r.details_long matches Some(d) && d@ == details@,
        r.command@ == command@,
        r.icon matches Some(i) && i@ == icon@,
        r.children == children,
{
    ActionsPluginAction {
        name: owned(name),
        keywords,
        details_long: Some(owned(details)),
        command: owned(command),
        icon: Some(owned(icon)),
        children,
    }
}

impl ActionsPluginAction {
    /// Expands a preset action with its submenu, or takes a custom one.
    pub fn from_io(value: io::ActionsPluginAction) -> (r: Self)
        ensures
            action_from(value, r),
    {
        match value {
            io::ActionsPluginAction::Preset(io::ActionsPluginActionPreset::LockScreen) => {
                let r = action(
                    "Lock Screen",
                    one_keyword("user"),
                    "Lock the screen",
                    "loginctl lock-session",
                    "system-lock-screen",
                    Vec::new(),
                );
                r
            },
            io::ActionsPluginAction::Preset(io::ActionsPluginActionPreset::Hibernate) => {
                let child = action(
                    "Hybrid Sleep",
                    Vec::new(),
                    "Writes RAM to disk, then enters low-power sleep. Enables fast wakeup time",
                    "systemctl hybrid-sleep",
                    "system-hibernate",
                    Vec::new(),
                );
                let mut children: Vec<ActionsPluginAction> = Vec::new();
                children.push(child);
                action(
                    "Hibernate",
                    Vec::new(),
                    "Writes RAM to disk, then powers off. Boots on wake",
                    "systemctl hibernate",
                    "system-hibernate",
                    children,
                )
            },
            io::ActionsPluginAction::Preset(io::ActionsPluginActionPreset::Logout) => action(
                "Log Out",
                one_keyword("user"),
                "Log out of the session",
                "loginctl terminate-session self",
                "system-log-out",
                Vec::new(),
            ),
            io::ActionsPluginAction::Preset(io::ActionsPluginActionPreset::Reboot) => action(
                "Reboot / Restart",
                Vec::new(),
                "Reboot the computer",
                "systemctl reboot",
                "system-reboot",
                Vec::new(),
            ),
            io::ActionsPluginAction::Preset(io::ActionsPluginActionPreset::Shutdown) => action(
                "Shutdown / Poweroff",
                Vec::new(),
                "Shut down the computer",
                "systemctl poweroff",
                "system-shutdown",
                Vec::new(),
            ),
            io::ActionsPluginAction::Preset(io::ActionsPluginActionPreset::Suspend) => {
                let child = action(
                    "Suspend Then Hibernate",
                    Vec::new(),
                    "Low-power sleep, then hibernate after some time",
                    "systemctl suspend-then-hibernate",
                    "system-hibernate",
                    Vec::new(),
                );
                let mut children: Vec<ActionsPluginAction> = Vec::new();
                children.push(child);
                action(
                    "Sleep / Suspend",
                    Vec::new(),
                    "Enters low-power sleep",
                    "systemctl suspend",
                    "system-suspend",
                    children,
                )
            },
            io::ActionsPluginAction::Custom(c) => ActionsPluginAction {
                name: c.name,
                keywords: Vec::new(),
                command: c.command,
                details_long: None,
                icon: c.icon,
                children: Vec::new(),
            },
        }
    }
}

impl ActionsPluginConfig {
    pub fn from_io(value: io::ActionsPluginConfig) -> (r: Self)
        ensures
            actions_from(value.actions@, r.actions@),
    {
        let ghost orig = value.actions@;
        let mut rest = value.actions;
        let mut actions: Vec<ActionsPluginAction> = Vec::new();
        while rest.len() > 0
            invariant
                actions@.len() + rest@.len() == orig.len(),
                rest@ == orig.subrange(actions@.len() as int, orig.len() as int),
                forall|i: int| 0 <= i < actions@.len() ==> action_from(#[trigger] orig[i], actions@[i]),
            decreases rest@.len(),
        {
            let a = rest.remove(0);
            actions.push(ActionsPluginAction::from_io(a));
            assert(rest@ =~= orig.subrange(actions@.len() as int, orig.len() as int));
        }
        ActionsPluginConfig { actions }
    }
}

impl Plugins {
    pub fn from_io(value: io::Plugins) -> (r: Self)
        ensures
            plugins_from(value, r),
    {
        Plugins {
            applications: match value.applications {
                Some(a) => Some(ApplicationsPluginConfig { run_cache_weeks: a.run_cache_weeks }),
                None => None,
            },
            terminal: if value.terminal.is_some() {
                Some(())
            } else {
                None
            },
            shell: if value.shell.is_some() {
                Some(())
            } else {
                None
            },
            websearch: match value.websearch {
                Some(w) => Some(WebSearchConfig::from_io(w)),
                None => None,
            },
            calc: match value.calc {
                Some(c) => Some(CalcPluginConfig { prefix: c.prefix }),
                None => None,
            },
            path: if value.path.is_some() {
                Some(())
            } else {
                None
            },
            actions: match value.actions {
                Some(a) => Some(ActionsPluginConfig::from_io(a)),
                None => None,
            },
        }
    }
}

impl Launcher {
    pub fn from_io(value: io::Launcher) -> (r: Self)
        ensures
            launcher_from(value, r),
    {
        let alt = match value.launch_modifier {
            Modifier::Alt => Modifier::Ctrl,
            _ => Modifier::Alt,
        };
        Launcher {
            default_terminal: value.default_terminal,
            launch_modifier: value.launch_modifier,
            alt_launch_modifier: alt,
            width: value.width,
            show_when_empty: value.show_when_empty,
            max_items: value.max_items,
            plugins: Plugins::from_io(value.plugins),
        }
    }
}

impl Overview {
    pub fn from_io(value: io::Overview) -> (r: Self)
        ensures
            overview_from(value, r),
    {
        let same_class = has_filter(&value.filter_by, io::FilterBy::SameClass);
        let current_workspace = has_filter(&value.filter_by, io::FilterBy::CurrentWorkspace);
        let current_monitor = has_filter(&value.filter_by, io::FilterBy::CurrentMonitor);
        Overview {
            key: value.key,
            modifier: value.modifier,
            top_offset: value.top_offset,
            filter_by_same_class: same_class,
            filter_by_current_workspace: current_workspace,
            filter_by_current_monitor: current_monitor,
            launcher: Launcher::from_io(value.launcher),
            exclude_workspaces: value.exclude_workspaces,
            live_preview: value.live_preview,
        }
    }
}

impl Windows {
    pub fn from_io(value: io::Windows) -> (r: Self)
        ensures
            windows_from(value, r),
    {
        Windows {
            general: WindowsGeneral {
                scale_bits: value.scale_bits,
                items_per_row: value.items_per_row,
                live_preview_refresh_rate: value.live_preview_refresh_rate,
            },
            switch: Switch::from_io_opt(value.switch),
            switch_2: Switch::from_io_opt(value.switch_2),
            overview: match value.overview {
                Some(o) => Some(Overview::from_io(o)),
                None => None,
            },
        }
    }
}

impl Config {
    /// The validated configuration of a configuration file.
    pub fn from_io(value: io::Config) -> (r: Self)
        ensures
            config_from(value, r),
    {
        Config {
            windows: match value.windows {
                Some(w) => Some(Windows::from_io(w)),
                None => None,
            },
        }
    }
}

// ---------------------------------------------------------------------------
// Defaults of the validated configuration: the defaults of the file format,
// converted.
// ---------------------------------------------------------------------------

pub open spec fn switch_default(r: Switch) -> bool {
    &&& r.modifier == Modifier::Alt
    &&& r.key@ == "Tab"@
    &&& !r.filter_by_same_class
    &&& !r.filter_by_current_workspace
    &&& r.filter_by_current_monitor
    &&& !r.switch_workspaces
    &&& r.exclude_workspaces@ == ""@
    &&& r.kill_key == 'q'
    &&& r.live_preview
}

pub open spec fn engines_default(r: Seq<SearchEngine>) -> bool {
    &&& r.len() == 2
    &&& engine_from(io::WebSearch::Preset(io::WebSearchPreset::Google), r[0])
    &&& engine_from(io::WebSearch::Preset(io::WebSearchPreset::Wikipedia), r[1])
}

pub open spec fn actions_default(r: Seq<ActionsPluginAction>) -> bool {
    &&& r.len() == 8
    &&& preset_action(io::ActionsPluginActionPreset::LockScreen, r[0])
    &&& preset_action(io::ActionsPluginActionPreset::Hibernate, r[1])
    &&& preset_action(io::ActionsPluginActionPreset::Logout, r[2])
    &&& preset_action(io::ActionsPluginActionPreset::Reboot, r[3])
    &&& preset_action(io::ActionsPluginActionPreset::Shutdown, r[4])
    &&& preset_action(io::ActionsPluginActionPreset::Suspend, r[5])
    &&& r[6].name@ == "Kill"@
    &&& r[6].command@ == io::kill_command()
    &&& r[6].details_long is None
    &&& r[6].icon matches Some(i) && i@ == "remove"@
    &&& r[6].keywords@.len() == 0
    &&& r[6].children@.len() == 0
    &&& r[7].name@ == "Reload Hyprshell"@
    &&& r[7].command@ == io::reload_command()
    &&& r[7].details_long is None
    &&& r[7].icon matches Some(i) && i@ == "system-restart"@
    &&& r[7].keywords@.len() == 0
    &&& r[7].children@.len() == 0
}

pub open spec fn launcher_default(r: Launcher) -> bool {
    &&& r.default_terminal is None
    &&& r.launch_modifier == Modifier::Ctrl
    &&& r.alt_launch_modifier == Modifier::Alt
    &&& r.width == 650
    &&& r.max_items == 5
    &&& r.show_when_empty
    &&& r.plugins.applications == Some(ApplicationsPluginConfig { run_cache_weeks: 8 })
    &&& r.plugins.terminal is Some
    &&& r.plugins.shell is None
    &&& r.plugins.websearch matches Some(w) && engines_default(w.engines@)
    &&& r.plugins.calc matches Some(c) && c.prefix is None
    &&& r.plugins.path is Some
    &&& r.plugins.actions matches Some(a) && actions_default(a.actions@)
}

pub open spec fn overview_default(r: Overview) -> bool {
    &&& launcher_default(r.launcher)
    &&& r.key@ == "Super_L"@
    &&& r.top_offset == 410
    &&& r.modifier == Modifier::Super
    &&& !r.filter_by_same_class
    &&& !r.filter_by_current_workspace
    &&& !r.filter_by_current_monitor
    &&& r.exclude_workspaces@ == "special:.*"@
    &&& r.live_preview
}

pub open spec fn windows_default(r: Windows) -> bool {
    &&& r.general == WindowsGeneral {
        scale_bits: io::DEFAULT_SCALE_BITS,
        items_per_row: 5,
        live_preview_refresh_rate: 300,
    }
    &&& r.overview is None
    &&& r.switch is None
    &&& r.switch_2 is None
}

impl Default for Switch {
    fn default() -> (r: Self)
        ensures
            switch_default(r),
    {
        let d = io::Switch::default();
        proof {
            assert(d.filter_by@[0] == io::FilterBy::CurrentMonitor);
        }
        Switch::from_io(d)
    }
}

impl Default for WebSearchConfig {
    fn default() -> (r: Self)
        ensures
            engines_default(r.engines@),
    {
        WebSearchConfig::from_io(io::WebSearchConfig::default())
    }
}

impl Default for ActionsPluginConfig {
    fn default() -> (r: Self)
        ensures
            actions_default(r.actions@),
    {
        let d = io::ActionsPluginConfig::default();
        let ghost a = d.actions@;
        let r = ActionsPluginConfig::from_io(d);
        proof {
            assert(action_from(a[0], r.actions@[0]));
            assert(action_from(a[1], r.actions@[1]));
            assert(action_from(a[2], r.actions@[2]));
            assert(action_from(a[3], r.actions@[3]));
            assert(action_from(a[4], r.actions@[4]));
            assert(action_from(a[5], r.actions@[5]));
            assert(action_from(a[6], r.actions@[6]));
            assert(action_from(a[7], r.actions@[7]));
        }
        r
    }
}

impl Default for ApplicationsPluginConfig {
    fn default() -> (r: Self)
        ensures
            r.run_cache_weeks == 8,
    {
        ApplicationsPluginConfig { run_cache_weeks: io::ApplicationsPluginConfig::default().run_cache_weeks }
    }
}

impl Default for CalcPluginConfig {
    fn default() -> (r: Self)
        ensures
            r.prefix is None,
    {
        CalcPluginConfig { prefix: io::CalcPluginConfig::default().prefix }
    }
}

impl Default for Launcher {
    fn default() -> (r: Self)
        ensures
            launcher_default(r),
    {
        let d = io::Launcher::default();
        let ghost p = d.plugins;
        let r = Launcher::from_io(d);
        proof {
            let w = p.websearch->0.engines@;
            assert(engine_from(w[0], r.plugins.websearch->0.engines@[0]));
            assert(engine_from(w[1], r.plugins.websearch->0.engines@[1]));
            let a = p.actions->0.actions@;
            let ra = r.plugins.actions->0.actions@;
            assert(action_from(a[0], ra[0]));
            assert(action_from(a[1], ra[1]));
            assert(action_from(a[2], ra[2]));
            assert(action_from(a[3], ra[3]));
            assert(action_from(a[4], ra[4]));
            assert(action_from(a[5], ra[5]));
            assert(action_from(a[6], ra[6]));
            assert(action_from(a[7], ra[7]));
        }
        r
    }
}

impl Default for Overview {
    fn default() -> (r: Self)
        ensures
            overview_default(r),
    {
        let d = io::Overview::default();
        let ghost p = d.launcher.plugins;
        let r = Overview::from_io(d);
        proof {
            let w = p.websearch->0.engines@;
            assert(engine_from(w[0], r.launcher.plugins.websearch->0.engines@[0]));
            assert(engine_from(w[1], r.launcher.plugins.websearch->0.engines@[1]));
            let a = p.actions->0.actions@;
            let ra = r.launcher.plugins.actions->0.actions@;
            assert(action_from(a[0], ra[0]));
            assert(action_from(a[1], ra[1]));
            assert(action_from(a[2], ra[2]));
            assert(action_from(a[3], ra[3]));
            assert(action_from(a[4], ra[4]));
            assert(action_from(a[5], ra[5]));
            assert(action_from(a[6], ra[6]));
            assert(action_from(a[7], ra[7]));
        }
        r
    }
}

impl Default for Windows {
    fn default() -> (r: Self)
        ensures
            windows_default(r),
    {
        Windows::from_io(io::Windows::default())
    }
}

impl Default for Config {
    fn default() -> (r: Self)
        ensures
            r.windows is None,
    {
        Config::from_io(io::Config::default())
    }
}

/// The configuration that a new configuration starts from: the default
/// windows settings, with overview and switch disabled.
pub fn default_config() -> (r: Config)
    ensures
        r.windows matches Some(w) && windows_default(w),
{
    Config { windows: Some(Windows::default()) }
}

} // verus!
