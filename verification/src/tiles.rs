//! What the switch shows: in workspace mode one tile per workspace with its
//! windows, otherwise one tile per window, and which tile starts selected.
//! And what each monitor's overview shows: the workspaces and windows on it.
//! Drawing the tiles is the caller's part.
use vstd::prelude::*;
use crate::data::{find_monitor, first_monitor, ClientData, MonitorData, WorkspaceData};
use crate::transfer::{ClientId, MonitorId, WorkspaceId};

verus! {

/// A workspace the switch shows.
#[derive(Debug, Clone, PartialEq, Eq)]
pub struct WorkspaceTile {
    pub id: WorkspaceId,
    /// Position of the workspace among the collected workspaces.
    pub workspace: usize,
    /// The monitor the workspace is on.
    pub monitor: MonitorData,
    /// Positions of its windows that take part, among the collected
    /// windows, in order.
    pub clients: Vec<usize>,
}

/// A window the switch shows.
#[derive(Debug, Clone, Copy, PartialEq, Eq, Structural)]
pub struct ClientTile {
    pub id: ClientId,
    /// Position of the window among the collected windows.
    pub client: usize,
    /// The monitor the window is on.
    pub monitor: MonitorData,
}

/// Positions, among the first `n` windows, of those that take part and are
/// on workspace `ws`.
pub open spec fn enabled_on(clients: Seq<(ClientId, ClientData)>, ws: WorkspaceId, n: int) -> Seq<
    usize,
>
    decreases n,
{
    if n <= 0 {
        seq![]
    } else {
        let rest = enabled_on(clients, ws, n - 1);
        if clients[n - 1].1.workspace == ws && clients[n - 1].1.enabled {
            rest.push((n - 1) as usize)
        } else {
            rest
        }
    }
}

/// The tiles of the first `n` workspaces: a workspace is shown when some
/// window on it takes part and its monitor is known.
pub open spec fn shown_workspaces(
    workspaces: Seq<(WorkspaceId, WorkspaceData)>,
    clients: Seq<(ClientId, ClientData)>,
    monitors: Seq<(MonitorId, MonitorData)>,
    n: int,
) -> Seq<(WorkspaceId, usize, MonitorData, Seq<usize>)>
    decreases n,
{
    if n <= 0 {
        seq![]
    } else {
        let rest = shown_workspaces(workspaces, clients, monitors, n - 1);
        let id = workspaces[n - 1].0;
        let w = workspaces[n - 1].1;
        if !w.any_client_enabled {
            rest
        } else {
            match first_monitor(monitors, w.monitor) {
                Some(m) => rest.push(
                    (id, (n - 1) as usize, monitors[m].1, enabled_on(clients, id, clients.len() as int)),
                ),
                None => rest,
            }
        }
    }
}

/// The tile shows this workspace.
pub open spec fn tile_is(t: WorkspaceTile, s: (WorkspaceId, usize, MonitorData, Seq<usize>)) -> bool {
    t.id == s.0 && t.workspace == s.1 && t.monitor == s.2 && t.clients@ == s.3
}

/// The tiles of the first `n` windows: a window is shown when it takes part
/// and its monitor is known.
pub open spec fn shown_clients(
    clients: Seq<(ClientId, ClientData)>,
    monitors: Seq<(MonitorId, MonitorData)>,
    n: int,
) -> Seq<ClientTile>
    decreases n,
{
    if n <= 0 {
        seq![]
    } else {
        let rest = shown_clients(clients, monitors, n - 1);
        let c = clients[n - 1];
        if !c.1.enabled {
            rest
        } else {
            match first_monitor(monitors, c.1.monitor) {
                Some(m) => rest.push(
                    ClientTile { id: c.0, client: (n - 1) as usize, monitor: monitors[m].1 },
                ),
                None => rest,
            }
        }
    }
}

fn enabled_positions(clients: &Vec<(ClientId, ClientData)>, ws: WorkspaceId) -> (r: Vec<usize>)
    ensures
        r@ == enabled_on(clients@, ws, clients@.len() as int),
{
    let mut out: Vec<usize> = Vec::new();
    let mut i: usize = 0;
    while i < clients.len()
        invariant
            i <= clients.len(),
            out@ == enabled_on(clients@, ws, i as int),
        decreases clients.len() - i,
    {
        if clients[i].1.workspace == ws && clients[i].1.enabled {
            out.push(i);
        }
        i = i + 1;
    }
    out
}

/// The workspace tiles, in the order of the workspaces.
pub fn workspace_tiles(
    workspaces: &Vec<(WorkspaceId, WorkspaceData)>,
    clients: &Vec<(ClientId, ClientData)>,
    monitors: &Vec<(MonitorId, MonitorData)>,
) -> (r: Vec<WorkspaceTile>)
    ensures
        r.len() == shown_workspaces(workspaces@, clients@, monitors@, workspaces@.len() as int).len(),
        forall|k: int|
            0 <= k < r.len() ==> tile_is(
                #[trigger] r[k],
                shown_workspaces(workspaces@, clients@, monitors@, workspaces@.len() as int)[k],
            ),
{
    let mut out: Vec<WorkspaceTile> = Vec::new();
    let mut i: usize = 0;
    while i < workspaces.len()
        invariant
            i <= workspaces.len(),
            out.len() == shown_workspaces(workspaces@, clients@, monitors@, i as int).len(),
            forall|k: int|
                0 <= k < out.len() ==> tile_is(
                    #[trigger] out[k],
                    shown_workspaces(workspaces@, clients@, monitors@, i as int)[k],
                ),
        decreases workspaces.len() - i,
    {
        let ghost before = shown_workspaces(workspaces@, clients@, monitors@, i as int);
        let id = workspaces[i].0;
        if workspaces[i].1.any_client_enabled {
            match find_monitor(monitors, workspaces[i].1.monitor) {
                Some(m) => {
                    let positions = enabled_positions(clients, id);
                    let ghost old_out = out@;
                    out.push(
                        WorkspaceTile { id, workspace: i, monitor: monitors[m].1, clients: positions },
                    );
                    proof {
                        let after = shown_workspaces(workspaces@, clients@, monitors@, i + 1);
                        assert(after == before.push(
                            (id, i, monitors@[m as int].1, enabled_on(clients@, id, clients@.len() as int)),
                        ));
                        assert forall|k: int| 0 <= k < out.len() implies tile_is(
                            #[trigger] out[k],
                            after[k],
                        ) by {
                            if k < old_out.len() {
                                assert(out@[k] == old_out[k]);
                            }
                        }
                    }
                },
                None => {},
            }
        }
        i = i + 1;
    }
    out
}

/// The window tiles, in the order of the windows.
pub fn client_tiles(
    clients: &Vec<(ClientId, ClientData)>,
    monitors: &Vec<(MonitorId, MonitorData)>,
) -> (r: Vec<ClientTile>)
    ensures
        r@ == shown_clients(clients@, monitors@, clients@.len() as int),
{
    let mut out: Vec<ClientTile> = Vec::new();
    let mut i: usize = 0;
    while i < clients.len()
        invariant
            i <= clients.len(),
            out@ == shown_clients(clients@, monitors@, i as int),
        decreases clients.len() - i,
    {
        if clients[i].1.enabled {
            match find_monitor(monitors, clients[i].1.monitor) {
                Some(m) => {
                    out.push(ClientTile { id: clients[i].0, client: i, monitor: monitors[m].1 });
                },
                None => {},
            }
        }
        i = i + 1;
    }
    out
}

/// The first workspace tile of workspace `active`, which starts selected.
pub fn active_workspace_tile(tiles: &Vec<WorkspaceTile>, active: WorkspaceId) -> (r: Option<usize>)
    ensures
        r matches Some(k) ==> k < tiles.len() && tiles[k as int].id == active && forall|j: int|
            0 <= j < k ==> tiles[j].id != active,
        r is None ==> forall|j: int| 0 <= j < tiles.len() ==> tiles[j].id != active,
{
    let mut i: usize = 0;
    while i < tiles.len()
        invariant
            i <= tiles.len(),
            forall|j: int| 0 <= j < i ==> tiles[j].id != active,
        decreases tiles.len() - i,
    {
        if tiles[i].id == active {
            return Some(i);
        }
        i = i + 1;
    }
    None
}

/// The first window tile of the selected window, which starts selected;
/// none without a selected window.
pub fn active_client_tile(tiles: &Vec<ClientTile>, active: Option<ClientId>) -> (r: Option<usize>)
    ensures
        active is None ==> r is None,
        active matches Some(a) ==> (r matches Some(k) ==> k < tiles.len() && tiles[k as int].id == a
            && forall|j: int| 0 <= j < k ==> tiles[j].id != a),
        active matches Some(a) ==> (r is None ==> forall|j: int|
            0 <= j < tiles.len() ==> tiles[j].id != a),
{
    let a = match active {
        Some(a) => a,
        None => return None,
    };
    let mut i: usize = 0;
    while i < tiles.len()
        invariant
            i <= tiles.len(),
            active == Some(a),
            forall|j: int| 0 <= j < i ==> tiles[j].id != a,
        decreases tiles.len() - i,
    {
        if tiles[i].id == a {
            return Some(i);
        }
        i = i + 1;
    }
    None
}

/// Positions, among the first `n` workspaces, of those on monitor `m`.
pub open spec fn workspaces_on(workspaces: Seq<(WorkspaceId, WorkspaceData)>, m: MonitorId, n: int) -> Seq<
    usize,
>
    decreases n,
{
    if n <= 0 {
        seq![]
    } else {
        let rest = workspaces_on(workspaces, m, n - 1);
        if workspaces[n - 1].1.monitor == m {
            rest.push((n - 1) as usize)
        } else {
            rest
        }
    }
}

/// Positions, among the first `n` windows, of those on monitor `m`.
pub open spec fn clients_on(clients: Seq<(ClientId, ClientData)>, m: MonitorId, n: int) -> Seq<usize>
    decreases n,
{
    if n <= 0 {
        seq![]
    } else {
        let rest = clients_on(clients, m, n - 1);
        if clients[n - 1].1.monitor == m {
            rest.push((n - 1) as usize)
        } else {
            rest
        }
    }
}

/// The workspaces the overview of monitor `m` shows, in order.
pub fn monitor_workspaces(workspaces: &Vec<(WorkspaceId, WorkspaceData)>, m: MonitorId) -> (r: Vec<
    usize,
>)
    ensures
        r@ == workspaces_on(workspaces@, m, workspaces@.len() as int),
{
    let mut out: Vec<usize> = Vec::new();
    let mut i: usize = 0;
    while i < workspaces.len()
        invariant
            i <= workspaces.len(),
            out@ == workspaces_on(workspaces@, m, i as int),
        decreases workspaces.len() - i,
    {
        if workspaces[i].1.monitor == m {
            out.push(i);
        }
        i = i + 1;
    }
    out
}

/// The windows the overview of monitor `m` shows, in order.
pub fn monitor_clients(clients: &Vec<(ClientId, ClientData)>, m: MonitorId) -> (r: Vec<usize>)
    ensures
        r@ == clients_on(clients@, m, clients@.len() as int),
{
    let mut out: Vec<usize> = Vec::new();
    let mut i: usize = 0;
    while i < clients.len()
        invariant
            i <= clients.len(),
            out@ == clients_on(clients@, m, i as int),
        decreases clients.len() - i,
    {
        if clients[i].1.monitor == m {
            out.push(i);
        }
        i = i + 1;
    }
    out
}

proof fn lemma_enabled_on(clients: Seq<(ClientId, ClientData)>, ws: WorkspaceId, n: int, k: int)
    requires
        0 <= n <= clients.len(),
        n <= usize::MAX,
        0 <= k < enabled_on(clients, ws, n).len(),
    ensures
        enabled_on(clients, ws, n)[k] < n,
        clients[enabled_on(clients, ws, n)[k] as int].1.workspace == ws,
        clients[enabled_on(clients, ws, n)[k] as int].1.enabled,
    decreases n,
{
    if n > 0 {
        let rest = enabled_on(clients, ws, n - 1);
        if k < rest.len() {
            lemma_enabled_on(clients, ws, n - 1, k);
        }
    }
}

proof fn lemma_shown_workspaces(
    workspaces: Seq<(WorkspaceId, WorkspaceData)>,
    clients: Seq<(ClientId, ClientData)>,
    monitors: Seq<(MonitorId, MonitorData)>,
    n: int,
    t: int,
)
    requires
        0 <= n <= workspaces.len(),
        n <= usize::MAX,
        0 <= t < shown_workspaces(workspaces, clients, monitors, n).len(),
    ensures
        ({
            let s = shown_workspaces(workspaces, clients, monitors, n)[t];
            &&& s.1 < n
            &&& workspaces[s.1 as int].0 == s.0
            &&& workspaces[s.1 as int].1.any_client_enabled
            &&& s.3 == enabled_on(clients, s.0, clients.len() as int)
        }),
    decreases n,
{
    if n > 0 {
        let rest = shown_workspaces(workspaces, clients, monitors, n - 1);
        if t < rest.len() {
            lemma_shown_workspaces(workspaces, clients, monitors, n - 1, t);
        }
    }
}

/// Each workspace tile names a workspace in which some window takes part,
/// and the windows it holds are exactly positions of windows on that
/// workspace that take part.
pub proof fn law_tiles_hold_their_own_windows(
    workspaces: Seq<(WorkspaceId, WorkspaceData)>,
    clients: Seq<(ClientId, ClientData)>,
    monitors: Seq<(MonitorId, MonitorData)>,
    t: int,
    k: int,
)
    requires
        workspaces.len() <= usize::MAX,
        clients.len() <= usize::MAX,
        0 <= t < shown_workspaces(workspaces, clients, monitors, workspaces.len() as int).len(),
        0 <= k < shown_workspaces(workspaces, clients, monitors, workspaces.len() as int)[t].3.len(),
    ensures
        ({
            let s = shown_workspaces(workspaces, clients, monitors, workspaces.len() as int)[t];
            &&& s.1 < workspaces.len()
            &&& workspaces[s.1 as int].0 == s.0
            &&& workspaces[s.1 as int].1.any_client_enabled
            &&& s.3[k] < clients.len()
            &&& clients[s.3[k] as int].1.workspace == s.0
            &&& clients[s.3[k] as int].1.enabled
        }),
{
    let n = workspaces.len() as int;
    lemma_shown_workspaces(workspaces, clients, monitors, n, t);
    let s = shown_workspaces(workspaces, clients, monitors, n)[t];
    lemma_enabled_on(clients, s.0, clients.len() as int, k);
}

} // verus!
