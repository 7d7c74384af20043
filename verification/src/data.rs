//! Preparing the compositor's windows for the overview and the switcher:
//! positions relative to their monitor, and which windows and workspaces
//! take part.
use vstd::prelude::*;
use crate::config::{Overview, Switch};
use crate::text::{owned, str_eq};
use crate::overview::Active;
use crate::transfer::{ClientId, MonitorId, WorkspaceId};

verus! {

/// How the windows are filtered and ordered.
#[derive(Debug, Clone, Default)]
pub struct SortConfig {
    pub sort_recent: bool,
    pub filter_current_workspace: bool,
    pub filter_current_monitor: bool,
    pub filter_same_class: bool,
    /// Pattern of workspace names to leave out.
    pub exclude_workspaces: Option<String>,
}

/// The pattern of excluded workspaces: none when empty.
pub open spec fn exclusion(pattern: Seq<char>) -> Option<Seq<char>> {
    if pattern.len() == 0 {
        None
    } else {
        Some(pattern)
    }
}

fn exclusion_of(pattern: &str) -> (r: Option<String>)
    ensures
        r matches Some(p) ==> exclusion(pattern@) == Some(p@),
        r is None ==> exclusion(pattern@) is None,
{
    if pattern.unicode_len() == 0 {
        None
    } else {
        Some(owned(pattern))
    }
}

/// How the switch collects windows: with its filters, most recently used
/// first.
pub fn switch_sort_config(switch: &Switch) -> (r: SortConfig)
    ensures
        r.sort_recent,
        r.filter_current_workspace == switch.filter_by_current_workspace,
        r.filter_current_monitor == switch.filter_by_current_monitor,
        r.filter_same_class == switch.filter_by_same_class,
        r.exclude_workspaces matches Some(p) ==> exclusion(switch.exclude_workspaces@) == Some(p@),
        r.exclude_workspaces is None ==> exclusion(switch.exclude_workspaces@) is None,
{
    SortConfig {
        sort_recent: true,
        filter_current_workspace: switch.filter_by_current_workspace,
        filter_current_monitor: switch.filter_by_current_monitor,
        filter_same_class: switch.filter_by_same_class,
        exclude_workspaces: exclusion_of(switch.exclude_workspaces.as_str()),
    }
}

/// How the overview collects windows: with its filters, by position.
pub fn overview_sort_config(overview: &Overview) -> (r: SortConfig)
    ensures
        !r.sort_recent,
        r.filter_current_workspace == overview.filter_by_current_workspace,
        r.filter_current_monitor == overview.filter_by_current_monitor,
        r.filter_same_class == overview.filter_by_same_class,
        r.exclude_workspaces matches Some(p) ==> exclusion(overview.exclude_workspaces@) == Some(p@),
        r.exclude_workspaces is None ==> exclusion(overview.exclude_workspaces@) is None,
{
    SortConfig {
        sort_recent: false,
        filter_current_workspace: overview.filter_by_current_workspace,
        filter_current_monitor: overview.filter_by_current_monitor,
        filter_same_class: overview.filter_by_same_class,
        exclude_workspaces: exclusion_of(overview.exclude_workspaces.as_str()),
    }
}

/// A window.
#[derive(Debug)]
pub struct ClientData {
    pub class: String,
    pub title: String,
    pub workspace: WorkspaceId,
    pub monitor: MonitorId,
    pub x: i16,
    pub y: i16,
    pub width: i16,
    pub height: i16,
    /// Whether the window takes part (passes the filters).
    pub enabled: bool,
}

/// A monitor.
#[derive(Debug, Clone, Copy, PartialEq, Eq, Structural)]
pub struct MonitorData {
    pub x: i32,
    pub y: i32,
    pub width: u16,
    pub height: u16,
}

/// A workspace.
#[derive(Debug)]
pub struct WorkspaceData {
    pub name: String,
    pub monitor: MonitorId,
    /// Whether the workspace takes part.
    pub any_client_enabled: bool,
}

/// Index of the first monitor with id `id`.
pub open spec fn first_monitor(monitors: Seq<(MonitorId, MonitorData)>, id: MonitorId) -> Option<
    int,
>
    decreases monitors.len(),
{
    if monitors.len() == 0 {
        None
    } else if monitors[0].0 == id {
        Some(0)
    } else {
        match first_monitor(monitors.skip(1), id) {
            Some(i) => Some(i + 1),
            None => None,
        }
    }
}

/// The window moved by minus the monitor's offset (truncated to 16 bits).
pub open spec fn shifted(c: ClientData, m: MonitorData) -> ClientData {
    ClientData { x: (c.x - (m.x as i16)) as i16, y: (c.y - (m.y as i16)) as i16, ..c }
}

/// The offset can be removed without overflow.
pub open spec fn shift_fits(c: ClientData, m: MonitorData) -> bool {
    i16::MIN <= c.x - (m.x as i16) <= i16::MAX && i16::MIN <= c.y - (m.y as i16) <= i16::MAX
}

/// When the window's monitor is known, its offset can be removed without
/// overflow.
pub open spec fn client_fits(c: (ClientId, ClientData), monitors: Seq<(MonitorId, MonitorData)>) -> bool {
    match first_monitor(monitors, c.1.monitor) {
        Some(m) => shift_fits(c.1, monitors[m].1),
        None => true,
    }
}

/// The windows whose monitor is known, positioned relative to it.
pub open spec fn relative_clients(
    clients: Seq<(ClientId, ClientData)>,
    monitors: Seq<(MonitorId, MonitorData)>,
) -> Seq<(ClientId, ClientData)>
    decreases clients.len(),
{
    if clients.len() == 0 {
        Seq::empty()
    } else {
        let rest = relative_clients(clients.skip(1), monitors);
        let (id, c) = clients[0];
        match first_monitor(monitors, c.monitor) {
            Some(i) => seq![(id, shifted(c, monitors[i].1))] + rest,
            None => rest,
        }
    }
}

pub(crate) fn find_monitor(monitors: &Vec<(MonitorId, MonitorData)>, id: MonitorId) -> (r: Option<usize>)
    ensures
        r matches Some(i) ==> first_monitor(monitors@, id) == Some(i as int) && i < monitors@.len(),
        r is None ==> first_monitor(monitors@, id) is None,
{
    let mut i: usize = 0;
    while i < monitors.len()
        invariant
            i <= monitors.len(),
            forall|j: int| 0 <= j < i ==> monitors@[j].0 != id,
        decreases monitors.len() - i,
    {
        if monitors[i].0 == id {
            proof {
                lemma_first_monitor(monitors@, id, i as int);
            }
            return Some(i);
        }
        i += 1;
    }
    proof {
        lemma_first_monitor_none(monitors@, id);
    }
    None
}

proof fn lemma_first_monitor(s: Seq<(MonitorId, MonitorData)>, id: MonitorId, i: int)
    requires
        0 <= i < s.len(),
        s[i].0 == id,
        forall|j: int| 0 <= j < i ==> s[j].0 != id,
    ensures
        first_monitor(s, id) == Some(i),
    decreases i,
{
    if i > 0 {
        lemma_first_monitor(s.skip(1), id, i - 1);
    }
}

proof fn lemma_first_monitor_none(s: Seq<(MonitorId, MonitorData)>, id: MonitorId)
    requires
        forall|j: int| 0 <= j < s.len() ==> s[j].0 != id,
    ensures
        first_monitor(s, id) is None,
    decreases s.len(),
{
    if s.len() > 0 {
        lemma_first_monitor_none(s.skip(1), id);
    }
}

/// Removes the monitor offset from the windows, so that positions are
/// relative to the window's monitor; windows on an unknown monitor are
/// dropped.
pub fn update_client_position(
    clients: Vec<(ClientId, ClientData)>,
    monitor_data: &Vec<(MonitorId, MonitorData)>,
) -> (r: Vec<(ClientId, ClientData)>)
    requires
        forall|i: int| 0 <= i < clients.len() ==> client_fits(#[trigger] clients[i], monitor_data@),
    ensures
        r@ == relative_clients(clients@, monitor_data@),
{
    let ghost all = clients@;
    let mut rest = clients;
    let mut kept: Vec<(ClientId, ClientData)> = Vec::new();
    let ghost mut k: int = 0;
    proof {
        assert(all.skip(0) =~= all);
        assert(kept@ + all =~= all);
    }
    while rest.len() > 0
        invariant
            0 <= k <= all.len(),
            rest@ == all.skip(k),
            kept@ + relative_clients(all.skip(k), monitor_data@) == relative_clients(
                all,
                monitor_data@,
            ),
            forall|i: int| 0 <= i < all.len() ==> client_fits(#[trigger] all[i], monitor_data@),
        decreases rest.len(),
    {
        let ghost tail = all.skip(k);
        let (id, c) = rest.remove(0);
        proof {
            assert(tail[0] == all[k]);
            assert(tail.skip(1) =~= all.skip(k + 1));
            assert(client_fits(all[k], monitor_data@));
        }
        match find_monitor(monitor_data, c.monitor) {
            Some(m) => {
                let md = monitor_data[m].1;
                assert(shift_fits(c, md));
                let moved = ClientData { x: c.x - (md.x as i16), y: c.y - (md.y as i16), ..c };
                kept.push((id, moved));
                proof {
                    assert(kept@ + relative_clients(all.skip(k + 1), monitor_data@) =~= relative_clients(
                        all,
                        monitor_data@,
                    ));
                }
            },
            None => {},
        }
        proof {
            k = k + 1;
        }
    }
    proof {
        assert(all.skip(k) =~= Seq::<(ClientId, ClientData)>::empty());
        assert(kept@ + relative_clients(all.skip(k), monitor_data@) =~= kept@);
    }
    kept
}

/// Whether a window passes the filters, given the active window's class,
/// the active workspace and the active monitor.
pub open spec fn passes(
    c: ClientData,
    config: SortConfig,
    active_class: Option<Seq<char>>,
    active_ws: WorkspaceId,
    active_monitor: MonitorId,
) -> bool {
    &&& (!config.filter_same_class || active_class is None || c.class@ == active_class->0)
    &&& (!config.filter_current_workspace || c.workspace == active_ws)
    &&& (!config.filter_current_monitor || c.monitor == active_monitor)
}

/// Marks which windows pass the filters.
pub fn enable_clients(
    clients: Vec<(ClientId, ClientData)>,
    config: &SortConfig,
    active_class: Option<&str>,
    active_ws: WorkspaceId,
    active_monitor: MonitorId,
) -> (r: Vec<(ClientId, ClientData)>)
    ensures
        r.len() == clients.len(),
        forall|i: int|
            0 <= i < r.len() ==> #[trigger] r[i] == (
                clients[i].0,
                ClientData {
                    enabled: passes(
                        clients[i].1,
                        *config,
                        match active_class {
                            Some(a) => Some(a@),
                            None => None,
                        },
                        active_ws,
                        active_monitor,
                    ),
                    ..clients[i].1
                },
            ),
{
    let ghost all = clients@;
    let ghost ac = match active_class {
        Some(a) => Some(a@),
        None => None,
    };
    let mut rest = clients;
    let mut out: Vec<(ClientId, ClientData)> = Vec::new();
    while rest.len() > 0
        invariant
            out.len() + rest.len() == all.len(),
            rest@ == all.skip(out.len() as int),
            ac == match active_class {
                Some(a) => Some(a@),
                None => None,
            },
            forall|i: int|
                0 <= i < out.len() ==> #[trigger] out[i] == (
                    all[i].0,
                    ClientData {
                        enabled: passes(all[i].1, *config, ac, active_ws, active_monitor),
                        ..all[i].1
                    },
                ),
        decreases rest.len(),
    {
        let ghost n = out.len();
        let (id, c) = rest.remove(0);
        proof {
            assert(all.skip(n as int)[0] == all[n as int]);
            assert(all.skip(n as int).skip(1) =~= all.skip(n + 1));
        }
        let same_class = match active_class {
            Some(a) => str_eq(c.class.as_str(), a),
            None => true,
        };
        let enabled = (!config.filter_same_class || same_class) && (!config.filter_current_workspace
            || c.workspace == active_ws) && (!config.filter_current_monitor || c.monitor
            == active_monitor);
        out.push((id, ClientData { enabled, ..c }));
    }
    out
}

/// What the filters mean for a window: a window that passes lies on the
/// active workspace when the current-workspace filter is on, on the active
/// monitor when the current-monitor filter is on, and has the active
/// window's class when the same-class filter is on and a window is active.
/// A window that meets each filter that is on passes, and with every filter
/// off all windows pass.
pub proof fn law_enabled_windows_meet_filters(
    c: ClientData,
    config: SortConfig,
    active_class: Option<Seq<char>>,
    active_ws: WorkspaceId,
    active_monitor: MonitorId,
)
    ensures
        passes(c, config, active_class, active_ws, active_monitor)
            && config.filter_current_workspace ==> c.workspace == active_ws,
        passes(c, config, active_class, active_ws, active_monitor)
            && config.filter_current_monitor ==> c.monitor == active_monitor,
        passes(c, config, active_class, active_ws, active_monitor) && config.filter_same_class
            && active_class is Some ==> c.class@ == active_class->0,
        config.filter_current_workspace && c.workspace != active_ws ==> !passes(
            c,
            config,
            active_class,
            active_ws,
            active_monitor,
        ),
        config.filter_current_monitor && c.monitor != active_monitor ==> !passes(
            c,
            config,
            active_class,
            active_ws,
            active_monitor,
        ),
        (!config.filter_current_workspace || c.workspace == active_ws)
            && (!config.filter_current_monitor || c.monitor == active_monitor) && (
        !config.filter_same_class || active_class is None || c.class@ == active_class->0)
            ==> passes(c, config, active_class, active_ws, active_monitor),
        !config.filter_current_workspace && !config.filter_current_monitor
            && !config.filter_same_class ==> passes(
            c,
            config,
            active_class,
            active_ws,
            active_monitor,
        ),
{
}

/// Whether a workspace takes part: it is the active one, or it holds
/// windows and all of them take part.
pub open spec fn workspace_enabled(
    id: WorkspaceId,
    clients: Seq<(ClientId, ClientData)>,
    active_ws: WorkspaceId,
) -> bool {
    id == active_ws || ((exists|i: int|
        #![trigger clients[i]]
        0 <= i < clients.len() && clients[i].1.workspace == id && clients[i].1.enabled) && (forall|
        i: int,
    |
        #![trigger clients[i]]
        0 <= i < clients.len() && clients[i].1.workspace == id ==> clients[i].1.enabled))
}

fn workspace_enabled_exec(
    id: WorkspaceId,
    clients: &Vec<(ClientId, ClientData)>,
    active_ws: WorkspaceId,
) -> (r: bool)
    ensures
        r == workspace_enabled(id, clients@, active_ws),
{
    if id == active_ws {
        return true;
    }
    let mut any = false;
    let mut i: usize = 0;
    while i < clients.len()
        invariant
            id != active_ws,
            i <= clients.len(),
            any == exists|j: int|
                0 <= j < i && clients@[j].1.workspace == id && clients@[j].1.enabled,
            forall|j: int| 0 <= j < i && clients@[j].1.workspace == id ==> clients@[j].1.enabled,
        decreases clients.len() - i,
    {
        if clients[i].1.workspace == id {
            if !clients[i].1.enabled {
                assert(!workspace_enabled(id, clients@, active_ws)) by {
                    let cs = clients@;
                    assert(cs[i as int].1.workspace == id && !cs[i as int].1.enabled);
                }
                return false;
            }
            any = true;
        }
        i += 1;
    }
    any
}

/// Marks which workspaces take part, given the marked windows.
pub fn enable_workspaces(
    workspaces: Vec<(WorkspaceId, WorkspaceData)>,
    clients: &Vec<(ClientId, ClientData)>,
    active_ws: WorkspaceId,
) -> (r: Vec<(WorkspaceId, WorkspaceData)>)
    ensures
        r.len() == workspaces.len(),
        forall|i: int|
            0 <= i < r.len() ==> #[trigger] r[i] == (
                workspaces[i].0,
                WorkspaceData {
                    any_client_enabled: workspace_enabled(workspaces[i].0, clients@, active_ws),
                    ..workspaces[i].1
                },
            ),
{
    let ghost all = workspaces@;
    let mut rest = workspaces;
    let mut out: Vec<(WorkspaceId, WorkspaceData)> = Vec::new();
    while rest.len() > 0
        invariant
            out.len() + rest.len() == all.len(),
            rest@ == all.skip(out.len() as int),
            forall|i: int|
                0 <= i < out.len() ==> #[trigger] out[i] == (
                    all[i].0,
                    WorkspaceData {
                        any_client_enabled: workspace_enabled(all[i].0, clients@, active_ws),
                        ..all[i].1
                    },
                ),
        decreases rest.len(),
    {
        let ghost n = out.len();
        let (id, w) = rest.remove(0);
        proof {
            assert(all.skip(n as int)[0] == all[n as int]);
            assert(all.skip(n as int).skip(1) =~= all.skip(n + 1));
        }
        let enabled = workspace_enabled_exec(id, clients, active_ws);
        out.push((id, WorkspaceData { any_client_enabled: enabled, ..w }));
    }
    out
}

/// The windows on workspace `ws`, in order.
pub open spec fn ids_on(clients: Seq<(ClientId, ClientData)>, ws: WorkspaceId) -> Seq<ClientId>
    decreases clients.len(),
{
    if clients.len() == 0 {
        seq![]
    } else {
        let rest = ids_on(clients.drop_last(), ws);
        if clients.last().1.workspace == ws {
            rest.push(clients.last().0)
        } else {
            rest
        }
    }
}

/// The windows that closing the selected item closes: in workspace mode
/// every window on the selected workspace; otherwise the selected window.
pub open spec fn closed_by(
    switch_workspaces: bool,
    active: Active,
    clients: Seq<(ClientId, ClientData)>,
) -> Seq<ClientId> {
    if switch_workspaces {
        ids_on(clients, active.workspace)
    } else {
        match active.client {
            Some(id) => seq![id],
            None => seq![],
        }
    }
}

/// The windows to close, in order, when the selected item of the switch is
/// closed.
pub fn clients_to_close(
    switch_workspaces: bool,
    active: Active,
    clients: &Vec<(ClientId, ClientData)>,
) -> (r: Vec<ClientId>)
    ensures
        r@ == closed_by(switch_workspaces, active, clients@),
{
    if !switch_workspaces {
        let mut out: Vec<ClientId> = Vec::new();
        if let Some(id) = active.client {
            out.push(id);
        }
        proof {
            assert(out@ =~= closed_by(switch_workspaces, active, clients@));
        }
        return out;
    }
    let ws = active.workspace;
    let mut out: Vec<ClientId> = Vec::new();
    let mut i: usize = 0;
    while i < clients.len()
        invariant
            i <= clients.len(),
            out@ == ids_on(clients@.take(i as int), ws),
        decreases clients.len() - i,
    {
        proof {
            assert(clients@.take(i + 1).drop_last() =~= clients@.take(i as int));
        }
        if clients[i].1.workspace == ws {
            out.push(clients[i].0);
        }
        i = i + 1;
    }
    proof {
        assert(clients@.take(i as int) =~= clients@);
    }
    out
}

} // verus!
