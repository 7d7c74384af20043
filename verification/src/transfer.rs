//! Messages sent to the running instance over its socket, and their JSON
//! wire format.
use vstd::prelude::*;
use crate::text::{owned, push_char};

verus! {

/// Address of a client (window).
pub type ClientId = u64;

/// Id of a workspace; special workspaces have negative ids.
pub type WorkspaceId = i32;

/// Id of a monitor.
pub type MonitorId = i128;

/// A message to the running instance.
#[derive(Debug, PartialEq, Eq, Structural)]
pub enum ExternalTransferType {
    /// Sent from the keybind to open the overview.
    OpenOverview,
    /// Sent from the keybind to open the switch.
    OpenSwitch(OpenSwitch),
    /// Sent from releasing the mod key.
    CloseSwitch(CloseSwitch),
    /// Sent when a new monitor, configuration, style or compositor
    /// configuration is detected.
    Reload,
}

#[derive(Debug, Clone, Copy, PartialEq, Eq, Structural)]
pub struct OpenSwitch {
    pub reverse: bool,
    /// Compositor keyboard event time, before the IPC process is scheduled.
    pub event_time: Option<u32>,
    /// Identity of a Lua open awaiting receipt by the switch component.
    pub event_id: Option<u64>,
}

#[derive(Debug, Clone, Copy, PartialEq, Eq, Structural)]
pub struct CloseSwitch {
    pub switch: bool,
}

#[derive(Debug, Clone, Copy, PartialEq, Eq, Structural)]
pub struct SwitchOverviewConfig {
    pub direction: Direction,
    pub workspace: bool,
}

#[derive(Debug, Clone, Copy, PartialEq, Eq, Structural)]
pub struct SwitchSwitchConfig {
    pub direction: Direction,
}

/// How the overview was closed.
#[derive(Debug, PartialEq, Eq)]
pub enum CloseOverviewConfig {
    LauncherClick(Identifier),
    LauncherPress(char),
    Windows(WindowsOverride),
    /// Closed without choosing anything.
    Nothing,
}

#[derive(Debug, Clone, Copy, PartialEq, Eq, Hash, Structural)]
pub enum PluginName {
    Applications,
    Shell,
    Terminal,
    WebSearch,
    Calc,
    Path,
    Actions,
}

/// Identifies an entry of the launcher results.
#[derive(Debug, Clone, PartialEq, Eq, Hash)]
pub struct Identifier {
    pub plugin: PluginName,
    /// Identifies the box in the launcher results.
    pub data: Option<String>,
    /// Selects a sub-option in a submenu (only when launched by a click).
    pub data_additional: Option<String>,
}

impl Identifier {
    /// An entry of `plugin` without data.
    pub fn plugin(plugin: PluginName) -> (r: Self)
        ensures
            r.plugin == plugin,
            r.data is None,
            r.data_additional is None,
    {
        Identifier { plugin, data: None, data_additional: None }
    }

    /// An entry of `plugin` that carries `data`.
    pub fn data(plugin: PluginName, data: String) -> (r: Self)
        ensures
            r.plugin == plugin,
            r.data == Some(data),
            r.data_additional is None,
    {
        Identifier { plugin, data: Some(data), data_additional: None }
    }

    /// An entry of `plugin` that carries `data` and selects the sub-option
    /// `data_additional`.
    pub fn data_additional(plugin: PluginName, data: String, data_additional: String) -> (r: Self)
        ensures
            r.plugin == plugin,
            r.data == Some(data),
            r.data_additional == Some(data_additional),
    {
        Identifier { plugin, data: Some(data), data_additional: Some(data_additional) }
    }
}

#[derive(Debug, Clone, Copy, PartialEq, Eq, Structural)]
pub enum WindowsOverride {
    ClientId(ClientId),
    WorkspaceID(WorkspaceId),
}

#[derive(Debug, Clone, Copy, PartialEq, Eq, Structural)]
pub enum Direction {
    Right,
    Left,
    Up,
    Down,
}

/// Decimal digits of `n`, without leading zeros.
pub open spec fn decimal(n: nat) -> Seq<char>
    decreases n,
{
    if n < 10 {
        seq![digit_char(n)]
    } else {
        decimal(n / 10).push(digit_char(n % 10))
    }
}

pub open spec fn digit_char(d: nat) -> char {
    if d == 0 {
        '0'
    } else if d == 1 {
        '1'
    } else if d == 2 {
        '2'
    } else if d == 3 {
        '3'
    } else if d == 4 {
        '4'
    } else if d == 5 {
        '5'
    } else if d == 6 {
        '6'
    } else if d == 7 {
        '7'
    } else if d == 8 {
        '8'
    } else {
        '9'
    }
}

fn digit(d: u64) -> (c: char)
    requires
        d < 10,
    ensures
        c == digit_char(d as nat),
{
    if d == 0 {
        '0'
    } else if d == 1 {
        '1'
    } else if d == 2 {
        '2'
    } else if d == 3 {
        '3'
    } else if d == 4 {
        '4'
    } else if d == 5 {
        '5'
    } else if d == 6 {
        '6'
    } else if d == 7 {
        '7'
    } else if d == 8 {
        '8'
    } else {
        '9'
    }
}

/// Appends the decimal digits of `n`.
pub fn push_decimal(out: &mut String, n: u64)
    ensures
        final(out)@ == old(out)@ + decimal(n as nat),
    decreases n,
{
    if n < 10 {
        push_char(out, digit(n));
        assert(final(out)@ =~= old(out)@ + decimal(n as nat));
    } else {
        push_decimal(out, n / 10);
        push_char(out, digit(n % 10));
        assert(final(out)@ =~= old(out)@ + decimal(n as nat));
    }
}

pub open spec fn json_bool(b: bool) -> Seq<char> {
    if b {
        "true"@
    } else {
        "false"@
    }
}

/// The JSON text of a message, as the running instance reads it: unit
/// variants are strings, the others objects keyed by the variant name;
/// absent optional fields are left out.
pub open spec fn transfer_json(t: ExternalTransferType) -> Seq<char> {
    match t {
        ExternalTransferType::OpenOverview => "\"OpenOverview\""@,
        ExternalTransferType::Reload => "\"Reload\""@,
        ExternalTransferType::OpenSwitch(o) => {
            let time = match o.event_time {
                Some(n) => ",\"event_time\":"@ + decimal(n as nat),
                None => Seq::empty(),
            };
            let id = match o.event_id {
                Some(n) => ",\"event_id\":"@ + decimal(n as nat),
                None => Seq::empty(),
            };
            "{\"OpenSwitch\":{\"reverse\":"@ + json_bool(o.reverse) + time + id + "}}"@
        },
        ExternalTransferType::CloseSwitch(c) => "{\"CloseSwitch\":{\"switch\":"@ + json_bool(
            c.switch,
        ) + "}}"@,
    }
}

/// The shell command that sends a message to the running instance.
pub open spec fn transfer_command(t: ExternalTransferType) -> Seq<char> {
    "hyprshell socat '"@ + transfer_json(t) + "'"@
}

impl ExternalTransferType {
    /// The JSON text of the message.
    pub fn to_json(&self) -> (r: String)
        ensures
            r@ == transfer_json(*self),
    {
        match self {
            ExternalTransferType::OpenOverview => owned("\"OpenOverview\""),
            ExternalTransferType::Reload => owned("\"Reload\""),
            ExternalTransferType::OpenSwitch(o) => {
                let mut out = owned("{\"OpenSwitch\":{\"reverse\":");
                out.append(if o.reverse { "true" } else { "false" });
                proof {
                    reveal_strlit("true");
                    reveal_strlit("false");
                }
                let ghost a = out@;
                if let Some(n) = o.event_time {
                    out.append(",\"event_time\":");
                    push_decimal(&mut out, n as u64);
                } else {
                    assert(a + Seq::<char>::empty() =~= a);
                }
                let ghost b = out@;
                assert(b =~= a + match o.event_time {
                    Some(n) => ",\"event_time\":"@ + decimal(n as nat),
                    None => Seq::empty(),
                });
                if let Some(n) = o.event_id {
                    out.append(",\"event_id\":");
                    push_decimal(&mut out, n);
                } else {
                    assert(b + Seq::<char>::empty() =~= b);
                }
                let ghost c = out@;
                assert(c =~= b + match o.event_id {
                    Some(n) => ",\"event_id\":"@ + decimal(n as nat),
                    None => Seq::empty(),
                });
                out.append("}}");
                out
            },
            ExternalTransferType::CloseSwitch(c) => {
                let mut out = owned("{\"CloseSwitch\":{\"switch\":");
                out.append(if c.switch { "true" } else { "false" });
                proof {
                    reveal_strlit("true");
                    reveal_strlit("false");
                }
                out.append("}}");
                out
            },
        }
    }
}

/// The shell command that sends `transfer` to the running instance.
pub fn generate_transfer_socat(transfer: &ExternalTransferType) -> (r: String)
    ensures
        r@ == transfer_command(*transfer),
{
    let mut out = owned("hyprshell socat '");
    let json = transfer.to_json();
    out.append(json.as_str());
    out.append("'");
    out
}

} // verus!
