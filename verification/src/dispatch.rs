//! What focusing a window or workspace asks of the compositor.
//!
//! Each function decides which request to send; sending it, and falling back
//! to the compositor's legacy syntax when the new one fails, is the caller's
//! part.
use vstd::prelude::*;
use crate::text::{occurs_at, owned, push_char};
use crate::transfer::WorkspaceId;

verus! {

/// How to switch to a workspace.
#[derive(Debug, Clone, Copy, PartialEq, Eq, Structural)]
pub enum WorkspaceSwitch {
    /// It is the active workspace already; switching would fail.
    AlreadyActive,
    /// Toggle the special workspace with this id.
    Special(WorkspaceId),
    /// Focus the workspace with this id.
    Normal(WorkspaceId),
}

/// Switches to `workspace_id`, given the active workspace (when known):
/// nothing when it is active, a special workspace for a negative id.
pub fn switch_workspace(workspace_id: WorkspaceId, active: Option<WorkspaceId>) -> (r:
    WorkspaceSwitch)
    ensures
        active == Some(workspace_id) ==> r == WorkspaceSwitch::AlreadyActive,
        active != Some(workspace_id) && workspace_id < 0 ==> r == WorkspaceSwitch::Special(
            workspace_id,
        ),
        active != Some(workspace_id) && workspace_id >= 0 ==> r == WorkspaceSwitch::Normal(
            workspace_id,
        ),
{
    if let Some(a) = active {
        if a == workspace_id {
            return WorkspaceSwitch::AlreadyActive;
        }
    }
    if workspace_id < 0 {
        WorkspaceSwitch::Special(workspace_id)
    } else {
        WorkspaceSwitch::Normal(workspace_id)
    }
}

/// `s` without all leading repetitions of `p` (as `str::trim_start_matches`).
pub open spec fn trim_leading(s: Seq<char>, p: Seq<char>) -> Seq<char>
    decreases s.len(),
{
    if p.len() > 0 && occurs_at(s, p, 0) {
        trim_leading(s.skip(p.len() as int), p)
    } else {
        s
    }
}

/// The name of a special workspace without its `special:` prefixes.
pub fn special_name(name: &str) -> (r: String)
    ensures
        r@ == trim_leading(name@, "special:"@),
{
    proof {
        reveal_strlit("special:");
    }
    let n = name.unicode_len();
    let mut start: usize = 0;
    proof {
        assert(name@.skip(0) =~= name@);
    }
    while crate::text::occurs_at_exec(name, "special:", start)
        invariant
            n == name@.len(),
            start <= n,
            trim_leading(name@.skip(start as int), "special:"@) == trim_leading(name@, "special:"@),
        decreases n - start,
    {
        proof {
            reveal_strlit("special:");
            let rest = name@.skip(start as int);
            assert(rest.subrange(0, 8) =~= name@.subrange(start as int, start + 8));
            assert(rest.skip(8) =~= name@.skip(start + 8));
        }
        start += 8;
    }
    proof {
        let rest = name@.skip(start as int);
        if occurs_at(rest, "special:"@, 0) {
            assert(rest.subrange(0, 8) =~= name@.subrange(start as int, start + 8));
        }
    }
    substring(name, start)
}

/// The characters of `s` from position `start` on.
pub open spec fn substring_spec(s: Seq<char>, start: int) -> Seq<char> {
    s.skip(start)
}

fn substring(s: &str, start: usize) -> (r: String)
    requires
        start <= s@.len(),
    ensures
        r@ == s@.skip(start as int),
{
    let n = s.unicode_len();
    let mut out = String::new();
    let mut i: usize = start;
    while i < n
        invariant
            n == s@.len(),
            start <= i <= n,
            out@ == s@.subrange(start as int, i as int),
        decreases n - i,
    {
        push_char(&mut out, s.get_char(i));
        i += 1;
        assert(out@ =~= s@.subrange(start as int, i as int));
    }
    assert(s@.subrange(start as int, n as int) =~= s@.skip(start as int));
    out
}

/// The special workspace to leave before switching: the active window's
/// workspace (or the active workspace when no window is active), when it is
/// a special one; the name is given without its `special:` prefixes.
pub open spec fn special_to_leave(active_ws: Seq<char>, client_ws: Option<Seq<char>>) -> Option<
    Seq<char>,
> {
    let current = match client_ws {
        Some(w) => w,
        None => active_ws,
    };
    if occurs_at(current, "special:"@, 0) {
        Some(trim_leading(current, "special:"@))
    } else {
        None
    }
}

/// The characters of an optional string.
pub open spec fn opt_chars(o: Option<&str>) -> Option<Seq<char>> {
    match o {
        Some(s) => Some(s@),
        None => None,
    }
}

/// The special workspace to leave before switching, if any.
pub fn deactivate_special_workspace_if_needed(active_ws: &str, client_ws: Option<&str>) -> (r:
    Option<String>)
    ensures
        r matches Some(n) ==> special_to_leave(active_ws@, opt_chars(client_ws)) == Some(
            n@,
        ),
        r is None ==> special_to_leave(active_ws@, opt_chars(client_ws)) is None,
{
    proof {
        reveal_strlit("special:");
    }
    let current = match client_ws {
        Some(w) => w,
        None => active_ws,
    };
    if crate::text::str_starts_with(current, "special:") {
        proof {
            assert(occurs_at(current@, "special:"@, 0));
        }
        Some(special_name(current))
    } else {
        None
    }
}

/// How to show a special workspace.
#[derive(Debug, PartialEq, Eq)]
pub enum SpecialSwitch {
    /// A monitor shows it already.
    AlreadyShown,
    /// Toggle the special workspace of this name (without `special:`).
    Toggle(String),
    /// No workspace has this id.
    NotFound,
}

/// `i` is the first workspace with id `id`.
pub open spec fn first_workspace(workspaces: Seq<(WorkspaceId, String)>, id: WorkspaceId, i: int) -> bool {
    0 <= i < workspaces.len() && workspaces[i].0 == id && forall|j: int|
        0 <= j < i ==> workspaces[j].0 != id
}

/// Shows the special workspace `id`, given the special workspace that each
/// monitor shows and the workspaces with their names.
pub fn switch_special_workspace(
    id: WorkspaceId,
    monitor_specials: &Vec<WorkspaceId>,
    workspaces: &Vec<(WorkspaceId, String)>,
) -> (r: SpecialSwitch)
    ensures
        monitor_specials@.contains(id) ==> r == SpecialSwitch::AlreadyShown,
        !monitor_specials@.contains(id) && (forall|i: int|
            0 <= i < workspaces.len() ==> workspaces[i].0 != id) ==> r == SpecialSwitch::NotFound,
        forall|i: int|
            !monitor_specials@.contains(id) && first_workspace(workspaces@, id, i) ==> (r matches SpecialSwitch::Toggle(
                n,
            ) && n@ == trim_leading(workspaces[i].1@, "special:"@)),
{
    let mut k: usize = 0;
    while k < monitor_specials.len()
        invariant
            k <= monitor_specials.len(),
            forall|j: int| 0 <= j < k ==> monitor_specials@[j] != id,
        decreases monitor_specials.len() - k,
    {
        if monitor_specials[k] == id {
            return SpecialSwitch::AlreadyShown;
        }
        k += 1;
    }
    let mut i: usize = 0;
    while i < workspaces.len()
        invariant
            !monitor_specials@.contains(id),
            i <= workspaces.len(),
            forall|j: int| 0 <= j < i ==> workspaces@[j].0 != id,
        decreases workspaces.len() - i,
    {
        if workspaces[i].0 == id {
            let name = special_name(workspaces[i].1.as_str());
            assert(first_workspace(workspaces@, id, i as int));
            assert forall|l: int| first_workspace(workspaces@, id, l) implies l == i by {
                if l < i {
                } else if l > i {
                    assert(workspaces@[i as int].0 == id);
                }
            }
            return SpecialSwitch::Toggle(name);
        }
        i += 1;
    }
    SpecialSwitch::NotFound
}

/// `c` in ASCII lower case.
pub open spec fn ascii_lower_char(c: char) -> char {
    if 'A' <= c <= 'Z' {
        ((c as u32) + 32) as char
    } else {
        c
    }
}

/// `s` with ASCII upper-case letters in lower case (as
/// `str::to_ascii_lowercase`).
pub open spec fn ascii_lower(s: Seq<char>) -> Seq<char> {
    s.map_values(|c: char| ascii_lower_char(c))
}

/// `s` with ASCII upper-case letters in lower case.
pub fn to_ascii_lowercase(s: &str) -> (r: String)
    ensures
        r@ == ascii_lower(s@),
{
    let n = s.unicode_len();
    let mut out = String::new();
    let mut i: usize = 0;
    while i < n
        invariant
            n == s@.len(),
            i <= n,
            out@ == ascii_lower(s@.take(i as int)),
        decreases n - i,
    {
        let c = s.get_char(i);
        let l = if 'A' <= c && c <= 'Z' {
            ((c as u8) + 32) as char
        } else {
            c
        };
        assert(l == ascii_lower_char(c)) by {
            if 'A' <= c && c <= 'Z' {
                assert((c as u8) as u32 == c as u32);
            }
        }
        push_char(&mut out, l);
        i += 1;
        assert(out@ =~= ascii_lower(s@.take(i as int)));
    }
    assert(s@.take(n as int) =~= s@);
    out
}

/// How to focus the window of a class (lower-cased): the pattern the window
/// selector takes, and the selector of the legacy syntax
/// (`initialclass:` and the pattern).
pub fn switch_client_by_initial_class(class: &str) -> (r: (String, String))
    ensures
        r.0@ == ascii_lower(class@),
        r.1@ == "initialclass:"@ + ascii_lower(class@),
{
    let lower = to_ascii_lowercase(class);
    let mut legacy = owned("initialclass:");
    legacy.append(lower.as_str());
    (lower, legacy)
}

} // verus!
