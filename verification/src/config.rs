//! The validated configuration that the windows, switch and launcher use.
use vstd::prelude::*;

verus! {

/// A modifier key.
#[derive(Debug, Clone, Copy, PartialEq, Eq, Structural)]
pub enum Modifier {
    Alt,
    Ctrl,
    Super,
    NoModifier,
}

/// Lower-case name of the modifier, as used in key bindings.
pub open spec fn modifier_str(m: Modifier) -> Seq<char> {
    match m {
        Modifier::Alt => "alt"@,
        Modifier::Ctrl => "ctrl"@,
        Modifier::Super => "super"@,
        Modifier::NoModifier => "none"@,
    }
}

/// Name of the modifier as shown to the user.
pub open spec fn modifier_label(m: Modifier) -> Seq<char> {
    match m {
        Modifier::Alt => "Alt"@,
        Modifier::Ctrl => "Ctrl"@,
        Modifier::Super => "Super"@,
        Modifier::NoModifier => "None"@,
    }
}

/// Key symbol of the left-hand key of the modifier (none for `None`).
pub open spec fn modifier_keysym_l(m: Modifier) -> Seq<char> {
    match m {
        Modifier::Alt => "Alt_L"@,
        Modifier::Ctrl => "Control_L"@,
        Modifier::Super => "Super_L"@,
        Modifier::NoModifier => Seq::empty(),
    }
}

/// Key symbol of the right-hand key of the modifier (none for `None`).
pub open spec fn modifier_keysym_r(m: Modifier) -> Seq<char> {
    match m {
        Modifier::Alt => "Alt_R"@,
        Modifier::Ctrl => "Control_R"@,
        Modifier::Super => "Super_R"@,
        Modifier::NoModifier => Seq::empty(),
    }
}

impl Modifier {
    /// Lower-case name of the modifier, as used in key bindings.
    pub fn to_str(&self) -> (r: &'static str)
        ensures
            r@ == modifier_str(*self),
    {
        proof {
            reveal_strlit("alt");
            reveal_strlit("ctrl");
            reveal_strlit("super");
            reveal_strlit("none");
        }
        match self {
            Modifier::Alt => "alt",
            Modifier::Ctrl => "ctrl",
            Modifier::Super => "super",
            Modifier::NoModifier => "none",
        }
    }

    /// Name of the modifier as shown to the user.
    pub fn label(&self) -> (r: &'static str)
        ensures
            r@ == modifier_label(*self),
    {
        proof {
            reveal_strlit("Alt");
            reveal_strlit("Ctrl");
            reveal_strlit("Super");
            reveal_strlit("None");
        }
        match self {
            Modifier::Alt => "Alt",
            Modifier::Ctrl => "Ctrl",
            Modifier::Super => "Super",
            Modifier::NoModifier => "None",
        }
    }

    /// Key symbol of the left-hand modifier key.
    pub fn to_keysym_l(&self) -> (r: &'static str)
        ensures
            r@ == modifier_keysym_l(*self),
    {
        proof {
            reveal_strlit("Alt_L");
            reveal_strlit("Control_L");
            reveal_strlit("Super_L");
            reveal_strlit("");
        }
        match self {
            Modifier::Alt => "Alt_L",
            Modifier::Ctrl => "Control_L",
            Modifier::Super => "Super_L",
            Modifier::NoModifier => "",
        }
    }

    /// Key symbol of the right-hand modifier key.
    pub fn to_keysym_r(&self) -> (r: &'static str)
        ensures
            r@ == modifier_keysym_r(*self),
    {
        proof {
            reveal_strlit("Alt_R");
            reveal_strlit("Control_R");
            reveal_strlit("Super_R");
            reveal_strlit("");
        }
        match self {
            Modifier::Alt => "Alt_R",
            Modifier::Ctrl => "Control_R",
            Modifier::Super => "Super_R",
            Modifier::NoModifier => "",
        }
    }
}

/// The whole configuration.
#[derive(Debug, PartialEq)]
pub struct Config {
    pub windows: Option<Windows>,
}

/// Overview and switch settings.
#[derive(Debug, PartialEq)]
pub struct Windows {
    pub general: WindowsGeneral,
    pub overview: Option<Overview>,
    pub switch: Option<Switch>,
    pub switch_2: Option<Switch>,
}

/// Settings shared by the overview and the switch.
#[derive(Debug, Clone, PartialEq, Eq)]
pub struct WindowsGeneral {
    /// The scale factor: the IEEE-754 bit pattern of the configured `f64`,
    /// carried through unchanged (the library does no float arithmetic).
    pub scale_bits: u64,
    pub items_per_row: u8,
    pub live_preview_refresh_rate: u16,
}

#[derive(Debug, PartialEq, Eq)]
pub struct Overview {
    pub launcher: Launcher,
    pub key: String,
    pub top_offset: u16,
    pub modifier: Modifier,
    pub filter_by_same_class: bool,
    pub filter_by_current_workspace: bool,
    pub filter_by_current_monitor: bool,
    pub exclude_workspaces: String,
    pub live_preview: bool,
}

#[derive(Debug, PartialEq, Eq)]
pub struct Launcher {
    pub default_terminal: Option<String>,
    pub launch_modifier: Modifier,
    pub alt_launch_modifier: Modifier,
    pub width: u16,
    pub max_items: u8,
    pub show_when_empty: bool,
    pub plugins: Plugins,
}

/// Enabled launcher plugins (`None` disables one).
#[derive(Debug, PartialEq, Eq)]
pub struct Plugins {
    pub applications: Option<ApplicationsPluginConfig>,
    pub terminal: Option<()>,
    pub shell: Option<()>,
    pub websearch: Option<WebSearchConfig>,
    pub calc: Option<CalcPluginConfig>,
    pub path: Option<()>,
    pub actions: Option<ActionsPluginConfig>,
}

#[derive(Debug, Clone, PartialEq, Eq)]
pub struct ApplicationsPluginConfig {
    pub run_cache_weeks: u8,
}

#[derive(Debug, PartialEq, Eq)]
pub struct ActionsPluginConfig {
    pub actions: Vec<ActionsPluginAction>,
}

/// A launcher action: a command with a name, shown with its children as a
/// submenu.
#[derive(Debug, PartialEq, Eq)]
pub struct ActionsPluginAction {
    pub name: String,
    pub keywords: Vec<String>,
    pub details_long: Option<String>,
    pub command: String,
    /// Icon name or path.
    pub icon: Option<String>,
    pub children: Vec<ActionsPluginAction>,
}

#[derive(Debug, Clone, PartialEq, Eq)]
pub struct WebSearchConfig {
    pub engines: Vec<SearchEngine>,
}

/// A search engine: `{}` in the url stands for the search text.
#[derive(Debug, Clone, PartialEq, Eq)]
pub struct SearchEngine {
    pub url: String,
    pub name: String,
    pub key: char,
}

#[derive(Debug, Clone, PartialEq, Eq)]
pub struct CalcPluginConfig {
    pub prefix: Option<String>,
}

#[derive(Debug, Clone, PartialEq, Eq)]
pub struct Switch {
    pub modifier: Modifier,
    pub key: String,
    pub filter_by_same_class: bool,
    pub filter_by_current_workspace: bool,
    pub filter_by_current_monitor: bool,
    pub switch_workspaces: bool,
    pub exclude_workspaces: String,
    pub kill_key: char,
    pub live_preview: bool,
}

} // verus!
