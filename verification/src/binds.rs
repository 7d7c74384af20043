//! Key bindings that the running instance asks the compositor to install.
use vstd::prelude::*;
use crate::config::{modifier_keysym_l, modifier_keysym_r, modifier_label, modifier_str, Windows};
use crate::lua::{format_string, lua_string_literal, EvalRaw};
use crate::text::{owned, str_eq};
use crate::transfer::{
    generate_transfer_socat, transfer_command, CloseSwitch, ExternalTransferType, OpenSwitch,
};

verus! {

/// A key binding that runs a shell command.
#[derive(Debug)]
pub struct ExecBind {
    /// Modifier names, such as `alt` or `shift` (any letter case).
    pub mods: Vec<&'static str>,
    /// Key symbol.
    pub key: String,
    /// Shell command.
    pub command: String,
    /// Fire on release instead of press.
    pub release: bool,
    /// Pass the compositor's key event time and a serial to the command.
    pub timestamped: bool,
    /// Description shown by the compositor.
    pub desc: String,
}

/// `b` holds exactly these values.
pub open spec fn bind_is(
    b: ExecBind,
    mods: Seq<Seq<char>>,
    key: Seq<char>,
    message: ExternalTransferType,
    release: bool,
    timestamped: bool,
    desc: Seq<char>,
) -> bool {
    &&& b.mods@.len() == mods.len()
    &&& forall|i: int| 0 <= i < mods.len() ==> (#[trigger] b.mods@[i])@ == mods[i]
    &&& b.key@ == key
    &&& b.command@ == transfer_command(message)
    &&& b.release == release
    &&& b.timestamped == timestamped
    &&& b.desc@ == desc
}

pub open spec fn open_switch(reverse: bool) -> ExternalTransferType {
    ExternalTransferType::OpenSwitch(OpenSwitch { reverse, event_time: None, event_id: None })
}

pub open spec fn close_switch() -> ExternalTransferType {
    ExternalTransferType::CloseSwitch(CloseSwitch { switch: true })
}

/// The bindings that open the overview and the switch: one press binding
/// for the overview; for the switch three timestamped press bindings
/// (forward, reverse with `grave`, reverse with `shift`), then one release
/// binding on each side of its modifier that closes it.
pub open spec fn open_keybinds(w: Windows, r: Seq<ExecBind>) -> bool {
    let first = if w.overview is Some {
        1int
    } else {
        0int
    };
    &&& r.len() == first + if w.switch is Some {
        5int
    } else {
        0int
    }
    &&& w.overview matches Some(o) ==> bind_is(
        r[0],
        seq![modifier_str(o.modifier)],
        o.key@,
        ExternalTransferType::OpenOverview,
        false,
        false,
        "Open Overview with "@ + modifier_label(o.modifier) + " + "@ + o.key@,
    )
    &&& w.switch matches Some(s) ==> {
        let m = modifier_label(s.modifier);
        &&& bind_is(
            r[first],
            seq![modifier_str(s.modifier)],
            s.key@,
            open_switch(false),
            false,
            true,
            "Open Switch with "@ + m + " + "@ + s.key@,
        )
        &&& bind_is(
            r[first + 1],
            seq![modifier_str(s.modifier)],
            "grave"@,
            open_switch(true),
            false,
            true,
            "Open Switch (reverse) with "@ + m + " + `"@,
        )
        &&& bind_is(
            r[first + 2],
            seq![modifier_str(s.modifier), "shift"@],
            s.key@,
            open_switch(true),
            false,
            true,
            "Open Switch (reverse) with "@ + m + " + shift + "@ + s.key@,
        )
        &&& bind_is(
            r[first + 3],
            seq![modifier_str(s.modifier)],
            modifier_keysym_l(s.modifier),
            close_switch(),
            true,
            false,
            "Close Switch (reverse) with "@ + m + " + "@ + m + "_l"@,
        )
        &&& bind_is(
            r[first + 4],
            seq![modifier_str(s.modifier)],
            modifier_keysym_r(s.modifier),
            close_switch(),
            true,
            false,
            "Close Switch (reverse) with "@ + m + " + "@ + m + "_r"@,
        )
    }
}

/// Closing the switch listens to both sides of its modifier and nothing
/// else: exactly two release bindings, on the left and the right key of the
/// modifier, each closing the switch without event times; the three opens
/// are timestamped press bindings.
pub proof fn law_switch_releases_use_both_modifier_sides(w: Windows, r: Seq<ExecBind>)
    requires
        open_keybinds(w, r),
        w.switch is Some,
    ensures
        ({
            let first = if w.overview is Some {
                1int
            } else {
                0int
            };
            let m = w.switch->0.modifier;
            &&& forall|i: int|
                0 <= i < r.len() && (#[trigger] r[i]).release ==> i == first + 3 || i == first + 4
            &&& r[first + 3].release && !r[first + 3].timestamped
            &&& r[first + 3].key@ == modifier_keysym_l(m)
            &&& r[first + 3].command@ == transfer_command(close_switch())
            &&& r[first + 4].release && !r[first + 4].timestamped
            &&& r[first + 4].key@ == modifier_keysym_r(m)
            &&& r[first + 4].command@ == transfer_command(close_switch())
            &&& forall|i: int| first <= i < first + 3 ==> !(#[trigger] r[i]).release && r[i].timestamped
        }),
{
}

fn make_bind(
    mods: Vec<&'static str>,
    key: String,
    transfer: ExternalTransferType,
    release: bool,
    timestamped: bool,
    desc: String,
) -> (r: ExecBind)
    ensures
        r.mods == mods,
        r.key == key,
        r.command@ == transfer_command(transfer),
        r.release == release,
        r.timestamped == timestamped,
        r.desc == desc,
{
    let command = generate_transfer_socat(&transfer);
    ExecBind { mods, key, command, release, timestamped, desc }
}

fn one_mod(m: &'static str) -> (r: Vec<&'static str>)
    ensures
        r@.len() == 1,
        r@[0]@ == m@,
{
    let mut v: Vec<&'static str> = Vec::new();
    v.push(m);
    v
}

fn text4(a: &str, b: &str, c: &str, d: &str) -> (r: String)
    ensures
        r@ == a@ + b@ + c@ + d@,
{
    let mut out = owned(a);
    out.append(b);
    out.append(c);
    out.append(d);
    out
}

fn text6(a: &str, b: &str, c: &str, d: &str, e: &str, f: &str) -> (r: String)
    ensures
        r@ == a@ + b@ + c@ + d@ + e@ + f@,
{
    let mut out = owned(a);
    out.append(b);
    out.append(c);
    out.append(d);
    out.append(e);
    out.append(f);
    out
}

/// The key bindings that open the overview and the switch of `windows`.
pub fn generate_open_keybinds(windows: &Windows) -> (r: Vec<ExecBind>)
    ensures
        open_keybinds(*windows, r@),
{
    let mut binds: Vec<ExecBind> = Vec::new();
    if let Some(overview) = &windows.overview {
        let m = overview.modifier;
        binds.push(
            make_bind(
                one_mod(m.to_str()),
                owned(overview.key.as_str()),
                ExternalTransferType::OpenOverview,
                false,
                false,
                text4("Open Overview with ", m.label(), " + ", overview.key.as_str()),
            ),
        );
    }
    let ghost first = binds@.len() as int;
    if let Some(switch) = &windows.switch {
        let m = switch.modifier;
        let label = m.label();
        binds.push(
            make_bind(
                one_mod(m.to_str()),
                owned(switch.key.as_str()),
                ExternalTransferType::OpenSwitch(
                    OpenSwitch { reverse: false, event_time: None, event_id: None },
                ),
                false,
                true,
                text4("Open Switch with ", label, " + ", switch.key.as_str()),
            ),
        );
        binds.push(
            make_bind(
                one_mod(m.to_str()),
                owned("grave"),
                ExternalTransferType::OpenSwitch(
                    OpenSwitch { reverse: true, event_time: None, event_id: None },
                ),
                false,
                true,
                text4("Open Switch (reverse) with ", label, " + `", ""),
            ),
        );
        let mut shifted: Vec<&'static str> = Vec::new();
        shifted.push(m.to_str());
        shifted.push("shift");
        binds.push(
            make_bind(
                shifted,
                owned(switch.key.as_str()),
                ExternalTransferType::OpenSwitch(
                    OpenSwitch { reverse: true, event_time: None, event_id: None },
                ),
                false,
                true,
                text4("Open Switch (reverse) with ", label, " + shift + ", switch.key.as_str()),
            ),
        );
        binds.push(
            make_bind(
                one_mod(m.to_str()),
                owned(m.to_keysym_l()),
                ExternalTransferType::CloseSwitch(CloseSwitch { switch: true }),
                true,
                false,
                text6("Close Switch (reverse) with ", label, " + ", label, "_l", ""),
            ),
        );
        binds.push(
            make_bind(
                one_mod(m.to_str()),
                owned(m.to_keysym_r()),
                ExternalTransferType::CloseSwitch(CloseSwitch { switch: true }),
                true,
                false,
                text6("Close Switch (reverse) with ", label, " + ", label, "_r", ""),
            ),
        );
    }
    proof {
        reveal_strlit("");
        let r = binds@;
        if windows.switch is Some {
            let s = windows.switch->0;
            assert(r[first + 1].desc@ =~= "Open Switch (reverse) with "@ + modifier_label(s.modifier)
                + " + `"@);
            assert(r[first + 3].desc@ =~= "Close Switch (reverse) with "@ + modifier_label(
                s.modifier,
            ) + " + "@ + modifier_label(s.modifier) + "_l"@);
            assert(r[first + 4].desc@ =~= "Close Switch (reverse) with "@ + modifier_label(
                s.modifier,
            ) + " + "@ + modifier_label(s.modifier) + "_r"@);
        }
    }
    binds
}

/// A modifier as the compositor's binding API names it.
#[derive(Debug, Clone, Copy, PartialEq, Eq, Structural)]
pub enum BindMod {
    Alt,
    Ctrl,
    Super,
    Shift,
}

/// The Unicode lower-case mapping of `s`, as std's `str::to_lowercase`
/// computes it.
pub uninterp spec fn lowercase(s: Seq<char>) -> Seq<char>;

/// Trusted: calls std's `str::to_lowercase`, whose result depends on the
/// characters of `s` alone; the mapping itself (Unicode case tables) is left
/// unstated and named `lowercase`.
#[verifier::external_body]
pub(crate) fn to_lowercase(s: &str) -> (r: String)
    ensures
        r@ == lowercase(s@),
{
    s.to_lowercase()
}

/// The modifier that a lower-case modifier name stands for; unknown names
/// stand for none.
pub open spec fn bind_mod_of(lower: Seq<char>) -> Option<BindMod> {
    if lower == "alt"@ {
        Some(BindMod::Alt)
    } else if lower == "control"@ || lower == "ctrl"@ {
        Some(BindMod::Ctrl)
    } else if lower == "super"@ || lower == "win"@ {
        Some(BindMod::Super)
    } else if lower == "shift"@ {
        Some(BindMod::Shift)
    } else {
        None
    }
}

/// The modifiers of the lower-cased names, in order, unknown names skipped.
pub open spec fn bind_mods_of(lowered: Seq<Seq<char>>) -> Seq<BindMod>
    decreases lowered.len(),
{
    if lowered.len() == 0 {
        Seq::empty()
    } else {
        let rest = bind_mods_of(lowered.drop_last());
        match bind_mod_of(lowered.last()) {
            Some(m) => rest.push(m),
            None => rest,
        }
    }
}

/// The modifier named by an already lower-cased name.
pub fn bind_mod_from_lower(lower: &str) -> (r: Option<BindMod>)
    ensures
        r == bind_mod_of(lower@),
{
    if str_eq(lower, "alt") {
        Some(BindMod::Alt)
    } else if str_eq(lower, "control") || str_eq(lower, "ctrl") {
        Some(BindMod::Ctrl)
    } else if str_eq(lower, "super") || str_eq(lower, "win") {
        Some(BindMod::Super)
    } else if str_eq(lower, "shift") {
        Some(BindMod::Shift)
    } else {
        None
    }
}

/// The lower-cased names of `mods`.
pub open spec fn lowered_mods(mods: Seq<&str>) -> Seq<Seq<char>> {
    mods.map_values(|m: &str| lowercase(m@))
}

/// The modifiers named by `mods`, compared without letter case; unknown
/// names are skipped.
pub fn bind_mods(mods: &Vec<&'static str>) -> (r: Vec<BindMod>)
    ensures
        r@ == bind_mods_of(lowered_mods(mods@)),
{
    let mut out: Vec<BindMod> = Vec::new();
    let mut i: usize = 0;
    while i < mods.len()
        invariant
            i <= mods@.len(),
            out@ == bind_mods_of(lowered_mods(mods@.subrange(0, i as int))),
        decreases mods@.len() - i,
    {
        let lower = to_lowercase(mods[i]);
        let m = bind_mod_from_lower(lower.as_str());
        proof {
            let next = lowered_mods(mods@.subrange(0, i + 1));
            assert(next.drop_last() =~= lowered_mods(mods@.subrange(0, i as int)));
            assert(next.last() == lowercase(mods@[i as int]@));
        }
        if let Some(m) = m {
            out.push(m);
        }
        i += 1;
    }
    assert(mods@.subrange(0, mods@.len() as int) =~= mods@);
    out
}

/// A flag of a binding in the compositor's Lua API.
#[derive(Debug, PartialEq, Eq)]
pub enum LuaFlag {
    Release,
    IgnoreMods,
    Transparent,
    AutoConsuming,
    Repeating,
    Description(String),
}

/// What a binding runs.
#[derive(Debug, PartialEq, Eq)]
pub enum BindDispatch {
    /// A shell command.
    ExecCmd(String),
    /// A Lua function expression.
    LuaFunction(String),
}

/// A binding in the compositor's Lua API.
#[derive(Debug)]
pub struct LuaBinding {
    pub mods: Vec<BindMod>,
    pub key: String,
    pub flags: Vec<LuaFlag>,
    pub dispatcher: BindDispatch,
}

/// Start of the Lua function that records the key event time with a serial
/// before running the command.
pub open spec fn timestamped_prefix() -> Seq<char> {
    "function()\n                    local state = _G.__hyprshell_key_time\n                    state.serial = (state.serial or 0) + 1\n                    state.pending = state.pending or {}\n                    if type(hl.is_key_down) == 'function' then\n                        state.pending[state.serial] = state.time\n                    end\n                    hl.exec_cmd("@
}

/// End of that Lua function: the command gets the event time and serial.
pub open spec fn timestamped_suffix() -> Seq<char> {
    " .. ' --event-time ' .. tostring(state.time) .. ' --event-id ' .. tostring(state.serial))\n                end"@
}

/// The Lua function that runs `command` with the recorded key event time.
pub open spec fn timestamped_dispatcher(command: Seq<char>) -> Seq<char> {
    timestamped_prefix() + lua_string_literal(command) + timestamped_suffix()
}

/// The Lua binding of `bind`: a release binding passes through and ignores
/// other modifiers; a press binding repeats. A timestamped binding runs its
/// command through a Lua function that appends the event time and serial.
pub open spec fn lua_binding_of(bind: ExecBind, r: LuaBinding) -> bool {
    &&& r.mods@ == bind_mods_of(lowered_mods(bind.mods@))
    &&& r.key@ == bind.key@
    &&& if bind.release {
        &&& r.flags@.len() == 5
        &&& r.flags@[0] == LuaFlag::Release
        &&& r.flags@[1] == LuaFlag::IgnoreMods
        &&& r.flags@[2] == LuaFlag::Transparent
        &&& r.flags@[3] == LuaFlag::AutoConsuming
        &&& r.flags@[4] matches LuaFlag::Description(d) && d@ == bind.desc@
    } else {
        &&& r.flags@.len() == 3
        &&& r.flags@[0] == LuaFlag::AutoConsuming
        &&& r.flags@[1] == LuaFlag::Repeating
        &&& r.flags@[2] matches LuaFlag::Description(d) && d@ == bind.desc@
    }
    &&& if bind.timestamped {
        r.dispatcher matches BindDispatch::LuaFunction(f) && f@ == timestamped_dispatcher(
            bind.command@,
        )
    } else {
        r.dispatcher matches BindDispatch::ExecCmd(c) && c@ == bind.command@
    }
}

/// The binding of `bind` in the compositor's Lua API.
pub fn lua_binding(bind: &ExecBind) -> (r: LuaBinding)
    ensures
        lua_binding_of(*bind, r),
{
    let mods = bind_mods(&bind.mods);
    let mut flags: Vec<LuaFlag> = Vec::new();
    if bind.release {
        flags.push(LuaFlag::Release);
        flags.push(LuaFlag::IgnoreMods);
        flags.push(LuaFlag::Transparent);
        flags.push(LuaFlag::AutoConsuming);
        flags.push(LuaFlag::Description(owned(bind.desc.as_str())));
    } else {
        flags.push(LuaFlag::AutoConsuming);
        flags.push(LuaFlag::Repeating);
        flags.push(LuaFlag::Description(owned(bind.desc.as_str())));
    }
    let dispatcher = if bind.timestamped {
        let mut f = owned(
            "function()\n                    local state = _G.__hyprshell_key_time\n                    state.serial = (state.serial or 0) + 1\n                    state.pending = state.pending or {}\n                    if type(hl.is_key_down) == 'function' then\n                        state.pending[state.serial] = state.time\n                    end\n                    hl.exec_cmd(",
        );
        let c = format_string(bind.command.as_str());
        f.append(c.as_str());
        f.append(
            " .. ' --event-time ' .. tostring(state.time) .. ' --event-id ' .. tostring(state.serial))\n                end",
        );
        BindDispatch::LuaFunction(f)
    } else {
        BindDispatch::ExecCmd(owned(bind.command.as_str()))
    };
    LuaBinding { mods, key: owned(bind.key.as_str()), flags, dispatcher }
}

/// The Lua code that installs, once, a keyboard hook recording the time of
/// the latest key event; evaluated before a timestamped binding is made.
pub fn key_time_hook() -> (r: EvalRaw)
    ensures
        r.0@ == key_time_hook_text(),
{
    EvalRaw::new(
        "\n            if not _G.__hyprshell_key_time then\n                _G.__hyprshell_key_time = { time = 0, serial = 0, pending = {} }\n                hl.on(\"input.keyboard.key\", function(_, time, _)\n                    _G.__hyprshell_key_time.time = time\n                end)\n            end\n        ",
    )
}

pub open spec fn key_time_hook_text() -> Seq<char> {
    "\n            if not _G.__hyprshell_key_time then\n                _G.__hyprshell_key_time = { time = 0, serial = 0, pending = {} }\n                hl.on(\"input.keyboard.key\", function(_, time, _)\n                    _G.__hyprshell_key_time.time = time\n                end)\n            end\n        "@
}

/// A binding in the compositor's legacy keyword syntax.
#[derive(Debug)]
pub struct LegacyBinding {
    pub mods: Vec<BindMod>,
    pub key: String,
    /// Flag letters after `bind`: `rti` (release, transparent, ignore
    /// modifiers) or `e` (repeat).
    pub flags: &'static str,
    /// Shell command.
    pub command: String,
}

/// The binding of `bind` in the legacy syntax; the command runs as it is,
/// without event times.
pub fn legacy_binding(bind: &ExecBind) -> (r: LegacyBinding)
    ensures
        r.mods@ == bind_mods_of(lowered_mods(bind.mods@)),
        r.key@ == bind.key@,
        r.flags@ == (if bind.release {
            "rti"@
        } else {
            "e"@
        }),
        r.command@ == bind.command@,
{
    LegacyBinding {
        mods: bind_mods(&bind.mods),
        key: owned(bind.key.as_str()),
        flags: if bind.release {
            "rti"
        } else {
            "e"
        },
        command: owned(bind.command.as_str()),
    }
}

/// An effect of a layer rule.
#[derive(Debug, Clone, Copy, PartialEq, Eq, Structural)]
pub enum LayerEffect {
    NoAnim(bool),
    Xray(bool),
    DimAround(bool),
}

/// A layer rule: effects for the layer surfaces of a namespace.
#[derive(Debug)]
pub struct LayerRule {
    pub namespace: String,
    pub effects: Vec<LayerEffect>,
}

/// The layer rules of the launcher, overview and switch namespaces: no
/// animation and no xray for each; the switch also dims what is behind it.
pub fn layer_rules(launcher: &str, overview: &str, switch: &str) -> (r: Vec<LayerRule>)
    ensures
        r.len() == 3,
        r[0].namespace@ == launcher@,
        r[0].effects@ == seq![LayerEffect::NoAnim(true), LayerEffect::Xray(false)],
        r[1].namespace@ == overview@,
        r[1].effects@ == seq![LayerEffect::NoAnim(true), LayerEffect::Xray(false)],
        r[2].namespace@ == switch@,
        r[2].effects@ == seq![
            LayerEffect::NoAnim(true),
            LayerEffect::Xray(false),
            LayerEffect::DimAround(true),
        ],
{
    let mut rules: Vec<LayerRule> = Vec::new();
    rules.push(
        LayerRule {
            namespace: owned(launcher),
            effects: vec![LayerEffect::NoAnim(true), LayerEffect::Xray(false)],
        },
    );
    rules.push(
        LayerRule {
            namespace: owned(overview),
            effects: vec![LayerEffect::NoAnim(true), LayerEffect::Xray(false)],
        },
    );
    rules.push(
        LayerRule {
            namespace: owned(switch),
            effects: vec![
                LayerEffect::NoAnim(true),
                LayerEffect::Xray(false),
                LayerEffect::DimAround(true),
            ],
        },
    );
    rules
}

/// `prefix` then `ns`.
fn joined(prefix: &str, ns: &str) -> (r: String)
    ensures
        r@ == prefix@ + ns@,
{
    let mut s = owned(prefix);
    s.append(ns);
    s
}

/// The values of the legacy `layerrule` keyword for the same rules, in the
/// order they are set.
pub fn legacy_layer_rules(launcher: &str, overview: &str, switch: &str) -> (r: Vec<String>)
    ensures
        r.len() == 7,
        r[0]@ == "noanim, "@ + launcher@,
        r[1]@ == "xray 0, "@ + launcher@,
        r[2]@ == "noanim, "@ + overview@,
        r[3]@ == "xray 0, "@ + overview@,
        r[4]@ == "noanim, "@ + switch@,
        r[5]@ == "dimaround, "@ + switch@,
        r[6]@ == "xray 0, "@ + switch@,
{
    let mut v: Vec<String> = Vec::new();
    v.push(joined("noanim, ", launcher));
    v.push(joined("xray 0, ", launcher));
    v.push(joined("noanim, ", overview));
    v.push(joined("xray 0, ", overview));
    v.push(joined("noanim, ", switch));
    v.push(joined("dimaround, ", switch));
    v.push(joined("xray 0, ", switch));
    v
}

} // verus!
