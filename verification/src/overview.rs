//! Decisions of the overview: what each input asks of the screen and the
//! compositor, and which window or workspace a closing overview focuses.
use vstd::prelude::*;
use crate::transfer::{ClientId, Direction, MonitorId, WorkspaceId};

verus! {

/// The selected window (if any), workspace and monitor.
#[derive(Debug, Clone, Copy, PartialEq, Eq, Structural)]
pub struct Active {
    pub client: Option<ClientId>,
    pub workspace: WorkspaceId,
    pub monitor: MonitorId,
}

/// What a closing overview or switch focuses.
#[derive(Debug, Clone, Copy, PartialEq, Eq, Structural)]
pub enum FocusTarget {
    Client(ClientId),
    Workspace(WorkspaceId),
}

/// The selected window, or the selected workspace when no window is
/// selected.
pub open spec fn focus_of(active: Active) -> FocusTarget {
    match active.client {
        Some(c) => FocusTarget::Client(c),
        None => FocusTarget::Workspace(active.workspace),
    }
}

/// What committing the selection focuses.
pub fn focus_target(active: Active) -> (r: FocusTarget)
    ensures
        r == focus_of(active),
{
    match active.client {
        Some(c) => FocusTarget::Client(c),
        None => FocusTarget::Workspace(active.workspace),
    }
}

/// Work the caller performs for the overview, in the order given.
#[derive(Debug, Clone, Copy, PartialEq, Eq, Structural)]
pub enum OverviewAction {
    /// Open the launcher part.
    OpenLauncher,
    /// Collect the windows, select the active one and show the overview.
    Show,
    /// Move the selection; `true` moves between workspaces.
    Navigate(Direction, bool),
    /// Close the launcher part.
    CloseLauncher,
    /// Hide the overview windows.
    Hide,
    /// Focus this window or workspace once the overview is hidden.
    Focus(FocusTarget),
    /// Close this window.
    Kill(ClientId),
    /// Collect the windows again and redraw.
    Reload,
    /// Feed a close request (with or without switching) back as an input.
    RequestClose(bool),
}

/// Whether the overview is shown, and its selection.
#[derive(Debug)]
pub struct OverviewControl {
    pub open: bool,
    pub active: Active,
}

impl OverviewControl {
    /// A hidden overview; nothing selected yet.
    pub fn new() -> (r: Self)
        ensures
            !r.open,
            r.active == (Active { client: None, workspace: -1i32, monitor: -1i128 }),
    {
        OverviewControl { open: false, active: Active { client: None, workspace: -1, monitor: -1 } }
    }

    /// The open key was pressed: a shown overview asks to close without
    /// switching, a hidden one opens.
    pub fn open_requested(&mut self) -> (r: Vec<OverviewAction>)
        ensures
            old(self).open ==> final(self).open && r@ == seq![OverviewAction::RequestClose(false)],
            !old(self).open ==> final(self).open && r@ == seq![
                OverviewAction::OpenLauncher,
                OverviewAction::Show,
            ],
            final(self).active == old(self).active,
    {
        let mut r = Vec::new();
        if self.open {
            r.push(OverviewAction::RequestClose(false));
        } else {
            self.open = true;
            r.push(OverviewAction::OpenLauncher);
            r.push(OverviewAction::Show);
        }
        r
    }

    /// The selection moves; windows only move left and right.
    pub fn switch(&self, direction: Direction, workspace: bool) -> (r: Vec<OverviewAction>)
        ensures
            self.open && (workspace || direction == Direction::Left || direction
                == Direction::Right) ==> r@ == seq![OverviewAction::Navigate(direction, workspace)],
            !(self.open && (workspace || direction == Direction::Left || direction
                == Direction::Right)) ==> r@.len() == 0,
    {
        let mut r = Vec::new();
        if self.open && (workspace || direction == Direction::Left || direction == Direction::Right) {
            r.push(OverviewAction::Navigate(direction, workspace));
        }
        r
    }

    /// The overview closes, focusing the selection when `do_switch`.
    pub fn close(&mut self, do_switch: bool) -> (r: Vec<OverviewAction>)
        ensures
            !final(self).open,
            final(self).active == old(self).active,
            !old(self).open ==> r@.len() == 0,
            old(self).open && !do_switch ==> r@ == seq![
                OverviewAction::CloseLauncher,
                OverviewAction::Hide,
            ],
            old(self).open && do_switch ==> r@ == seq![
                OverviewAction::CloseLauncher,
                OverviewAction::Hide,
                OverviewAction::Focus(focus_of(old(self).active)),
            ],
    {
        let mut r = Vec::new();
        if self.open {
            self.open = false;
            r.push(OverviewAction::CloseLauncher);
            r.push(OverviewAction::Hide);
            if do_switch {
                r.push(OverviewAction::Focus(focus_target(self.active)));
            }
        }
        r
    }

    /// The close key was pressed on window `id`: close it (while shown),
    /// then redraw.
    pub fn close_item(&self, id: ClientId) -> (r: Vec<OverviewAction>)
        ensures
            self.open ==> r@ == seq![OverviewAction::Kill(id), OverviewAction::Reload],
            !self.open ==> r@ == seq![OverviewAction::Reload],
    {
        let mut r = Vec::new();
        if self.open {
            r.push(OverviewAction::Kill(id));
        }
        r.push(OverviewAction::Reload);
        r
    }

    /// A workspace was clicked: select it and close with a switch.
    pub fn click_workspace(&mut self, workspace: WorkspaceId) -> (r: Vec<OverviewAction>)
        ensures
            final(self).open == old(self).open,
            final(self).active == (Active {
                client: None,
                workspace,
                monitor: old(self).active.monitor,
            }),
            r@ == seq![OverviewAction::RequestClose(true)],
    {
        self.active = Active { client: None, workspace, monitor: self.active.monitor };
        let mut r = Vec::new();
        r.push(OverviewAction::RequestClose(true));
        r
    }

    /// A window was clicked: select it and close with a switch.
    pub fn click_client(&mut self, client: ClientId) -> (r: Vec<OverviewAction>)
        ensures
            final(self).open == old(self).open,
            final(self).active == (Active { client: Some(client), ..old(self).active }),
            r@ == seq![OverviewAction::RequestClose(true)],
    {
        self.active = Active { client: Some(client), ..self.active };
        let mut r = Vec::new();
        r.push(OverviewAction::RequestClose(true));
        r
    }
}

} // verus!
