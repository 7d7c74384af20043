//! Helpers of the configuration editor: key labels and accelerators.
use vstd::prelude::*;
use crate::binds::{lowercase, to_lowercase};
use crate::config::{modifier_label, Modifier};
use crate::text::{owned, str_eq};

verus! {

/// The key name with the letter case that key symbols use, for the modifier
/// keys that are sometimes written with other case (`lower` is the key name
/// in lower case).
pub open spec fn canonical_key(lower: Seq<char>, key: Seq<char>) -> Seq<char> {
    if lower == "super_l"@ {
        "Super_L"@
    } else if lower == "super_r"@ {
        "Super_R"@
    } else if lower == "alt_l"@ {
        "Alt_L"@
    } else if lower == "alt_r"@ {
        "Alt_R"@
    } else if lower == "control_l"@ {
        "Control_L"@
    } else if lower == "control_r"@ {
        "Control_R"@
    } else {
        key
    }
}

/// A GTK accelerator: `<Modifier>key`, or the key alone.
pub open spec fn accelerator_text(m: Modifier, key: Seq<char>) -> Seq<char> {
    if m == Modifier::NoModifier {
        key
    } else {
        "<"@ + modifier_label(m) + ">"@ + key
    }
}

/// A key combination for display: `Modifier + key`, or the key alone.
pub open spec fn combination_text(m: Modifier, key: Seq<char>) -> Seq<char> {
    if m == Modifier::NoModifier {
        key
    } else {
        modifier_label(m) + " + "@ + key
    }
}

/// The key name with corrected letter case, given the key name `key` and
/// its lower-case form `lower`.
pub fn canonical_modifier_key(lower: &str, key: &str) -> (r: String)
    ensures
        r@ == canonical_key(lower@, key@),
{
    if str_eq(lower, "super_l") {
        owned("Super_L")
    } else if str_eq(lower, "super_r") {
        owned("Super_R")
    } else if str_eq(lower, "alt_l") {
        owned("Alt_L")
    } else if str_eq(lower, "alt_r") {
        owned("Alt_R")
    } else if str_eq(lower, "control_l") {
        owned("Control_L")
    } else if str_eq(lower, "control_r") {
        owned("Control_R")
    } else {
        owned(key)
    }
}

/// The GTK accelerator of a modifier and key; modifier key names are first
/// brought to the letter case of key symbols.
pub fn mod_key_to_accelerator(modifier: Modifier, key: &str) -> (r: String)
    ensures
        r@ == accelerator_text(modifier, canonical_key(lowercase(key@), key@)),
{
    let lower = to_lowercase(key);
    let key = canonical_modifier_key(lower.as_str(), key);
    if modifier == Modifier::NoModifier {
        key
    } else {
        let mut out = owned("<");
        out.append(modifier.label());
        out.append(">");
        out.append(key.as_str());
        out
    }
}

/// A modifier and key for display: `Alt + Tab`, or `Tab` alone.
pub fn mod_key_to_string(modifier: Modifier, key: &str) -> (r: String)
    ensures
        r@ == combination_text(modifier, key@),
{
    if modifier == Modifier::NoModifier {
        owned(key)
    } else {
        let mut out = owned(modifier.label());
        out.append(" + ");
        out.append(key);
        out
    }
}

/// The modifiers held while a key was pressed in the key editor.
#[derive(Debug, Clone, Copy, PartialEq, Eq, Structural)]
pub enum HeldModifiers {
    Nothing,
    OnlyAlt,
    OnlyCtrl,
    OnlySuper,
    /// Another modifier, or more than one.
    Other,
}

/// The modifier that a key press sets: the pressed key's own modifier when
/// it is a modifier key, otherwise the single held modifier; `None` when
/// other or several modifiers are held.
pub open spec fn pressed_modifier(key: Seq<char>, held: HeldModifiers) -> Option<Modifier> {
    if key == "Alt_L"@ || key == "Alt_R"@ {
        Some(Modifier::Alt)
    } else if key == "Control_L"@ || key == "Control_R"@ {
        Some(Modifier::Ctrl)
    } else if key == "Super_L"@ || key == "Super_R"@ {
        Some(Modifier::Super)
    } else {
        match held {
            HeldModifiers::Nothing => Some(Modifier::NoModifier),
            HeldModifiers::OnlyAlt => Some(Modifier::Alt),
            HeldModifiers::OnlyCtrl => Some(Modifier::Ctrl),
            HeldModifiers::OnlySuper => Some(Modifier::Super),
            HeldModifiers::Other => None,
        }
    }
}

/// A key pressed in the key editor: the key's name, the modifier it goes
/// with and the label shown for the combination.
pub fn handle_key(key_name: &str, held: HeldModifiers) -> (r: Option<(String, Modifier, String)>)
    ensures
        pressed_modifier(key_name@, held) is None ==> r is None,
        pressed_modifier(key_name@, held) matches Some(m) ==> (r matches Some(t) && t.0@
            == key_name@ && t.1 == m && t.2@ == combination_text(m, key_name@)),
{
    let modifier = if str_eq(key_name, "Alt_L") || str_eq(key_name, "Alt_R") {
        Modifier::Alt
    } else if str_eq(key_name, "Control_L") || str_eq(key_name, "Control_R") {
        Modifier::Ctrl
    } else if str_eq(key_name, "Super_L") || str_eq(key_name, "Super_R") {
        Modifier::Super
    } else {
        match held {
            HeldModifiers::Nothing => Modifier::NoModifier,
            HeldModifiers::OnlyAlt => Modifier::Alt,
            HeldModifiers::OnlyCtrl => Modifier::Ctrl,
            HeldModifiers::OnlySuper => Modifier::Super,
            HeldModifiers::Other => {
                return None;
            },
        }
    };
    let label = mod_key_to_string(modifier, key_name);
    Some((owned(key_name), modifier, label))
}

} // verus!
