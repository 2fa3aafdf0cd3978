//! Focus panes and the user actions that keyboard input produces.
use vstd::prelude::*;

use crate::boinc::models::RunMode;

verus! {

/// Focusable pane identifiers in the main TUI layout.
#[derive(Debug, Clone, Copy, PartialEq, Eq, Structural)]
pub enum FocusPane {
    Projects,
    Tasks,
    Transfers,
}

impl Default for FocusPane {
    /// The projects pane.
    fn default() -> (r: Self)
        ensures
            r == FocusPane::Projects,
    {
        FocusPane::Projects
    }
}

impl FocusPane {
    /// The pane after `self` in the order Projects, Tasks, Transfers, Projects.
    pub open spec fn following(self) -> FocusPane {
        match self {
            FocusPane::Projects => FocusPane::Tasks,
            FocusPane::Tasks => FocusPane::Transfers,
            FocusPane::Transfers => FocusPane::Projects,
        }
    }

    /// The pane before `self` in the same cycle.
    pub open spec fn preceding(self) -> FocusPane {
        match self {
            FocusPane::Projects => FocusPane::Transfers,
            FocusPane::Tasks => FocusPane::Projects,
            FocusPane::Transfers => FocusPane::Tasks,
        }
    }

    /// Cycles focus in the order: Projects -> Tasks -> Transfers -> Projects.
    pub fn next(self) -> (r: Self)
        ensures
            r == self.following(),
    {
        match self {
            FocusPane::Projects => FocusPane::Tasks,
            FocusPane::Tasks => FocusPane::Transfers,
            FocusPane::Transfers => FocusPane::Projects,
        }
    }

    /// Cycles focus backwards: Projects -> Transfers -> Tasks -> Projects.
    pub fn previous(self) -> (r: Self)
        ensures
            r == self.preceding(),
    {
        match self {
            FocusPane::Projects => FocusPane::Transfers,
            FocusPane::Tasks => FocusPane::Projects,
            FocusPane::Transfers => FocusPane::Tasks,
        }
    }
}

/// Moving focus backwards undoes moving it forwards, and the other way round.
pub proof fn lemma_focus_previous_undoes_next(p: FocusPane)
    ensures
        p.following().preceding() == p,
        p.preceding().following() == p,
{
}

/// Three forward moves visit every pane once and come back to the start.
pub proof fn lemma_focus_cycle_has_three_panes(p: FocusPane)
    ensures
        p.following().following().following() == p,
        p.following() != p,
        p.following().following() != p,
{
}

/// User-triggered actions from keyboard input.
#[derive(Debug, Clone, Copy, PartialEq, Eq, Structural)]
pub enum UserAction {
    RefreshNow,
    CyclePane,
    PreviousPane,
    MoveUp,
    MoveDown,
    Quit,
    ConfirmPending,
    CancelPending,
    ProjectUpdate,
    ProjectSuspend,
    ProjectResume,
    ProjectNoMoreWork,
    ProjectAllowMoreWork,
    ProjectReset,
    ProjectDetach,
    TaskSuspend,
    TaskResume,
    TaskAbort,
    TransferRetry,
    SetNetworkMode(RunMode),
    SetRunMode(RunMode),
    SetGpuMode(RunMode),
    SaveDiagnostics,
}

impl UserAction {
    /// The actions that need an explicit confirmation: resetting or
    /// detaching a project and aborting a task.
    pub open spec fn destructive(self) -> bool {
        self is ProjectReset || self is ProjectDetach || self is TaskAbort
    }

    /// Returns true if action should require explicit confirmation.
    pub fn is_destructive(&self) -> (r: bool)
        ensures
            r == self.destructive(),
    {
        match self {
            UserAction::ProjectReset | UserAction::ProjectDetach | UserAction::TaskAbort => true,
            _ => false,
        }
    }
}

} // verus!
