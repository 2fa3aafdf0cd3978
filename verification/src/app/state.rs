//! The application's view state: focus, selections, the pending
//! confirmation, the status line and the connection state, with the
//! decisions that keyboard actions and refresh results make on them.
//!
//! The front end owns the data lists and the RPC session; it hands this
//! module the identifiers of the listed items and performs the [`Effect`]
//! each decision asks for, then reports how it went.
use vstd::prelude::*;

use crate::app::actions::{FocusPane, UserAction};
use crate::app::reconnect::{backoff_ms, clock_subsec_nanos, jittered_ms, Delay};
use crate::boinc::api::write::{
    mode_request, project_request, task_request, element, BoincWriteApi, RpcRequest,
};
use crate::boinc::models::RunMode;
use crate::error::AppError;
use crate::text::{cat, decimal, decimal_string, string_of};

verus! {

/// Interval between regular refreshes while connected, in milliseconds.
pub const REFRESH_INTERVAL_MS: u64 = 2_000;

// ---------------------------------------------------------------------------
// Selection indices
// ---------------------------------------------------------------------------

/// A selection index brought back into a list of `len` items: the last item
/// when it points past the end, 0 for an empty list.
pub open spec fn selection_clamped(idx: nat, len: nat) -> nat {
    if len == 0 {
        0
    } else if idx >= len {
        (len - 1) as nat
    } else {
        idx
    }
}

/// Moving a selection up, wrapping from the top to the last item.
pub open spec fn selection_up(idx: nat, len: nat) -> nat {
    if len == 0 {
        0
    } else if idx == 0 {
        (len - 1) as nat
    } else {
        (idx - 1) as nat
    }
}

/// Moving a selection down, wrapping from the last item to the top.
pub open spec fn selection_down(idx: nat, len: nat) -> nat {
    if len == 0 {
        0
    } else {
        (idx + 1) % len
    }
}

/// Returns `selection_clamped(idx, len)`.
pub fn clamp_selection(idx: usize, len: usize) -> (r: usize)
    ensures
        r == selection_clamped(idx as nat, len as nat),
{
    if len == 0 {
        0
    } else if idx >= len {
        len - 1
    } else {
        idx
    }
}

/// Returns `selection_up(idx, len)`.
pub fn move_selection_up(idx: usize, len: usize) -> (r: usize)
    ensures
        r == selection_up(idx as nat, len as nat),
{
    if len == 0 {
        0
    } else if idx == 0 {
        len - 1
    } else {
        idx - 1
    }
}

/// Returns `selection_down(idx, len)`.
pub fn move_selection_down(idx: usize, len: usize) -> (r: usize)
    ensures
        r == selection_down(idx as nat, len as nat),
{
    if len == 0 {
        0
    } else {
        proof {
            vstd::arithmetic::div_mod::lemma_add_mod_noop_right(1, idx as int, len as int);
            vstd::arithmetic::div_mod::lemma_mod_bound(idx as int, len as int);
        }
        (idx % len + 1) % len
    }
}

/// Every selection move or clamp from a listed item (or from one past the
/// end) lands on an item of a non-empty list.
pub proof fn lemma_selection_in_range(idx: nat, len: nat)
    requires
        len > 0,
        idx <= len,
    ensures
        selection_clamped(idx, len) < len,
        selection_up(idx, len) < len,
        selection_down(idx, len) < len,
{
}

/// On a valid selection, moving up undoes moving down and the other way
/// round, and clamping changes nothing.
pub proof fn lemma_selection_moves_undo(idx: nat, len: nat)
    requires
        idx < len,
    ensures
        selection_up(selection_down(idx, len), len) == idx,
        selection_down(selection_up(idx, len), len) == idx,
        selection_clamped(idx, len) == idx,
{
    if idx + 1 < len {
        vstd::arithmetic::div_mod::lemma_small_mod((idx + 1) as nat, len);
    } else {
        vstd::arithmetic::div_mod::lemma_mod_self_0(len as int);
    }
    if idx == 0 {
        vstd::arithmetic::div_mod::lemma_mod_self_0(len as int);
    } else {
        vstd::arithmetic::div_mod::lemma_small_mod(idx, len);
    }
}

// ---------------------------------------------------------------------------
// Connection state
// ---------------------------------------------------------------------------

/// Health of the link to the BOINC client, as the refresh loop sees it.
#[derive(Debug, Clone, PartialEq, Eq)]
pub enum ConnectionState {
    /// No refresh has completed yet.
    Connecting,
    /// The last refresh succeeded.
    Connected,
    /// Refreshes are failing with transient errors; the next try waits
    /// `delay_ms`.
    Retrying { attempt: u32, delay_ms: u64 },
    /// A refresh failed with an error that retrying cannot fix.
    TerminalError(String),
}

/// The mathematical content of a [`ConnectionState`].
pub enum ConnView {
    Connecting,
    Connected,
    Retrying { attempt: u32, delay_ms: u64 },
    TerminalError(Seq<char>),
}

impl View for ConnectionState {
    type V = ConnView;

    open spec fn view(&self) -> ConnView {
        match self {
            ConnectionState::Connecting => ConnView::Connecting,
            ConnectionState::Connected => ConnView::Connected,
            ConnectionState::Retrying { attempt, delay_ms } => ConnView::Retrying {
                attempt: *attempt,
                delay_ms: *delay_ms,
            },
            ConnectionState::TerminalError(s) => ConnView::TerminalError(s@),
        }
    }
}

/// The attempt number of the next transient failure: one more than the
/// current retry streak (saturating), or 1 when not retrying.
pub open spec fn next_attempt(c: ConnView) -> u32 {
    match c {
        ConnView::Retrying { attempt, .. } => if attempt < u32::MAX {
            (attempt + 1) as u32
        } else {
            attempt
        },
        _ => 1,
    }
}

/// A transient failure after a success starts a new streak at attempt 1;
/// each further transient failure counts one more attempt.
pub proof fn lemma_retry_streak(attempt: u32, delay_ms: u64)
    requires
        attempt < u32::MAX,
    ensures
        next_attempt(ConnView::Connected) == 1,
        next_attempt(ConnView::Connecting) == 1,
        next_attempt(ConnView::Retrying { attempt, delay_ms }) == attempt + 1,
{
}

/// Status line while connected.
pub open spec fn connected_line() -> Seq<char> {
    "Connected. Refreshing every 2s."@
}

/// Status line while retrying.
pub open spec fn retrying_line(attempt: u32, delay_ms: u64) -> Seq<char> {
    "Connection lost; retrying in "@ + decimal(delay_ms as nat) + " ms (attempt "@ + decimal(
        attempt as nat,
    ) + ")"@
}

/// Status line after an error that retrying cannot fix.
pub open spec fn fatal_line(message: Seq<char>) -> Seq<char> {
    "Fatal: "@ + message + ". Check BOINCRS_PASSWORD and GUI RPC access, then restart."@
}

/// `text` is what the error renders as: its message exactly, or for an I/O
/// error its message prefix followed by the underlying error's text.
pub open spec fn describes(text: Seq<char>, e: AppError) -> bool {
    if e is Io {
        text.len() >= e.message().len() && text.take(e.message().len() as int) == e.message()
    } else {
        text == e.message()
    }
}

// ---------------------------------------------------------------------------
// Effects and targets
// ---------------------------------------------------------------------------

/// What the front end must do after a decision.
#[derive(Debug)]
pub enum Effect {
    /// Nothing further.
    Nothing,
    /// Refresh all lists and report the result with `refresh_finished`.
    Refresh,
    /// Refresh all lists, ignoring the result.
    RefreshQuietly,
    /// Write a diagnostics snapshot and report it with `diagnostics_saved`.
    SaveDiagnostics,
    /// Send this request and report the result with `rpc_finished`.
    Send(RpcRequest),
}

/// The mathematical content of an [`Effect`].
pub enum EffectView {
    Nothing,
    Refresh,
    RefreshQuietly,
    SaveDiagnostics,
    Send((Seq<char>, Seq<char>)),
}

impl View for Effect {
    type V = EffectView;

    open spec fn view(&self) -> EffectView {
        match self {
            Effect::Nothing => EffectView::Nothing,
            Effect::Refresh => EffectView::Refresh,
            Effect::RefreshQuietly => EffectView::RefreshQuietly,
            Effect::SaveDiagnostics => EffectView::SaveDiagnostics,
            Effect::Send(r) => EffectView::Send(r@),
        }
    }
}

/// Identifiers of the currently listed items, in display order.
pub struct Targets {
    /// Master URL of each project.
    pub project_urls: Vec<String>,
    /// `(project_url, name)` of each task.
    pub tasks: Vec<(String, String)>,
    /// `(project_url, file_name)` of each transfer.
    pub transfers: Vec<(String, String)>,
}

/// The mathematical content of [`Targets`].
pub struct TargetsView {
    pub projects: Seq<Seq<char>>,
    pub tasks: Seq<(Seq<char>, Seq<char>)>,
    pub transfers: Seq<(Seq<char>, Seq<char>)>,
}

impl View for Targets {
    type V = TargetsView;

    open spec fn view(&self) -> TargetsView {
        TargetsView {
            projects: self.project_urls@.map_values(|s: String| s@),
            tasks: self.tasks@.map_values(|p: (String, String)| (p.0@, p.1@)),
            transfers: self.transfers@.map_values(|p: (String, String)| (p.0@, p.1@)),
        }
    }
}

// ---------------------------------------------------------------------------
// View state
// ---------------------------------------------------------------------------

/// UI state that the renderer and the controller share.
#[derive(Debug)]
pub struct ViewState {
    pub focus: FocusPane,
    pub status_line: String,
    pub pending_confirmation: Option<String>,
    pub pending_action: Option<UserAction>,
    pub should_quit: bool,
    pub selected_project_idx: usize,
    pub selected_task_idx: usize,
    pub selected_transfer_idx: usize,
    pub conn: ConnectionState,
}

/// The mathematical content of a [`ViewState`].
pub struct ViewModel {
    pub focus: FocusPane,
    pub status_line: Seq<char>,
    pub pending_confirmation: Option<Seq<char>>,
    pub pending_action: Option<UserAction>,
    pub should_quit: bool,
    pub project_idx: nat,
    pub task_idx: nat,
    pub transfer_idx: nat,
    pub conn: ConnView,
}

impl View for ViewState {
    type V = ViewModel;

    open spec fn view(&self) -> ViewModel {
        ViewModel {
            focus: self.focus,
            status_line: self.status_line@,
            pending_confirmation: match self.pending_confirmation {
                Some(s) => Some(s@),
                None => None,
            },
            pending_action: self.pending_action,
            should_quit: self.should_quit,
            project_idx: self.selected_project_idx as nat,
            task_idx: self.selected_task_idx as nat,
            transfer_idx: self.selected_transfer_idx as nat,
            conn: self.conn@,
        }
    }
}

/// The text shown for an action awaiting confirmation (its `Debug` name).
pub open spec fn action_label(a: UserAction) -> Seq<char> {
    match a {
        UserAction::ProjectReset => "ProjectReset"@,
        UserAction::ProjectDetach => "ProjectDetach"@,
        UserAction::TaskAbort => "TaskAbort"@,
        _ => Seq::empty(),
    }
}

/// The project that project actions target: the first listed one.
pub open spec fn selected_project(t: TargetsView) -> Option<Seq<char>> {
    if t.projects.len() > 0 {
        Some(t.projects[0])
    } else {
        None
    }
}

/// The selected task's `(project_url, name)`, if any.
pub open spec fn selected_task(v: ViewModel, t: TargetsView) -> Option<(Seq<char>, Seq<char>)> {
    if v.task_idx < t.tasks.len() {
        Some(t.tasks[v.task_idx as int])
    } else {
        None
    }
}

/// The transfer that a retry targets: the first listed one's
/// `(project_url, file_name)`.
pub open spec fn selected_transfer(t: TargetsView) -> Option<(Seq<char>, Seq<char>)> {
    if t.transfers.len() > 0 {
        Some(t.transfers[0])
    } else {
        None
    }
}

/// The request an RPC action sends, or `None` when it has no target.
///
/// Project actions target the first listed project and a transfer retry the
/// first listed transfer; task actions target the selected task.
pub open spec fn action_request(a: UserAction, v: ViewModel, t: TargetsView) -> Option<
    (Seq<char>, Seq<char>),
> {
    let project = |cmd: Seq<char>| match selected_project(t) {
        Some(u) => Some(project_request(cmd, u)),
        None => None,
    };
    let task = |cmd: Seq<char>| match selected_task(v, t) {
        Some(p) => Some(task_request(cmd, p.0, p.1)),
        None => None,
    };
    match a {
        UserAction::ProjectUpdate => project("project_update"@),
        UserAction::ProjectSuspend => project("project_suspend"@),
        UserAction::ProjectResume => project("project_resume"@),
        UserAction::ProjectNoMoreWork => project("project_nomorework"@),
        UserAction::ProjectAllowMoreWork => project("project_allowmorework"@),
        UserAction::ProjectReset => project("project_reset"@),
        UserAction::ProjectDetach => project("project_detach"@),
        UserAction::TaskSuspend => task("result_suspend"@),
        UserAction::TaskResume => task("result_resume"@),
        UserAction::TaskAbort => task("result_abort"@),
        UserAction::TransferRetry => match selected_transfer(t) {
            Some(p) => Some(
                (
                    "retry_file_transfer"@,
                    element("project_url"@, p.0) + element("filename"@, p.1),
                ),
            ),
            None => None,
        },
        UserAction::SetNetworkMode(m) => Some(mode_request("set_network_mode"@, m, 0)),
        UserAction::SetRunMode(m) => Some(mode_request("set_run_mode"@, m, 0)),
        UserAction::SetGpuMode(m) => Some(mode_request("set_gpu_mode"@, m, 0)),
        _ => None,
    }
}


/// Moving the selection of the focused pane up or down.
pub open spec fn navigated(v: ViewModel, up: bool, t: TargetsView) -> ViewModel {
    match v.focus {
        FocusPane::Projects => ViewModel {
            project_idx: if up {
                selection_up(v.project_idx, t.projects.len())
            } else {
                selection_down(v.project_idx, t.projects.len())
            },
            ..v
        },
        FocusPane::Tasks => ViewModel {
            task_idx: if up {
                selection_up(v.task_idx, t.tasks.len())
            } else {
                selection_down(v.task_idx, t.tasks.len())
            },
            ..v
        },
        FocusPane::Transfers => ViewModel {
            transfer_idx: if up {
                selection_up(v.transfer_idx, t.transfers.len())
            } else {
                selection_down(v.transfer_idx, t.transfers.len())
            },
            ..v
        },
    }
}

/// Carrying out an action that needs no (further) confirmation.
pub open spec fn executed(v: ViewModel, a: UserAction, t: TargetsView) -> (ViewModel, EffectView) {
    match a {
        UserAction::Quit => (ViewModel { should_quit: true, ..v }, EffectView::Nothing),
        UserAction::RefreshNow => (v, EffectView::Refresh),
        UserAction::CyclePane => (ViewModel { focus: v.focus.following(), ..v }, EffectView::Nothing),
        UserAction::PreviousPane => (
            ViewModel { focus: v.focus.preceding(), ..v },
            EffectView::Nothing,
        ),
        UserAction::MoveUp => (navigated(v, true, t), EffectView::Nothing),
        UserAction::MoveDown => (navigated(v, false, t), EffectView::Nothing),
        UserAction::SaveDiagnostics => (v, EffectView::SaveDiagnostics),
        UserAction::ConfirmPending => (v, EffectView::Nothing),
        UserAction::CancelPending => (v, EffectView::Nothing),
        _ => match action_request(a, v, t) {
            Some(req) => (v, EffectView::Send(req)),
            None => (
                ViewModel { status_line: "action succeeded"@, ..v },
                EffectView::RefreshQuietly,
            ),
        },
    }
}

/// The decision a keyboard action makes: confirming runs the pending
/// action, cancelling drops it, a destructive action waits for
/// confirmation, anything else is carried out at once.
pub open spec fn apply_action(v: ViewModel, a: UserAction, t: TargetsView) -> (
    ViewModel,
    EffectView,
) {
    match a {
        UserAction::ConfirmPending => match v.pending_action {
            Some(p) => executed(
                ViewModel { pending_action: None, pending_confirmation: None, ..v },
                p,
                t,
            ),
            None => (v, EffectView::Nothing),
        },
        UserAction::CancelPending => (
            ViewModel {
                pending_action: None,
                pending_confirmation: None,
                status_line: "Cancelled pending action"@,
                ..v
            },
            EffectView::Nothing,
        ),
        _ => if a.destructive() {
            (
                ViewModel {
                    pending_action: Some(a),
                    pending_confirmation: Some(action_label(a)),
                    ..v
                },
                EffectView::Nothing,
            )
        } else {
            executed(v, a, t)
        },
    }
}

/// An action waiting for confirmation is always a destructive one.
pub open spec fn pending_ok(v: ViewModel) -> bool {
    match v.pending_action {
        Some(p) => p.destructive() && v.pending_confirmation == Some(action_label(p)),
        None => v.pending_confirmation is None,
    }
}

/// A destructive action never runs at once: it only becomes the pending
/// action, and only confirming runs it. Every action keeps the pending
/// action, when there is one, a destructive one with its label shown.
pub proof fn lemma_destructive_actions_wait(v: ViewModel, a: UserAction, t: TargetsView)
    requires
        pending_ok(v),
    ensures
        pending_ok(apply_action(v, a, t).0),
        a.destructive() ==> apply_action(v, a, t).1 is Nothing
            && apply_action(v, a, t).0.pending_action == Some(a),
        apply_action(v, a, t).1 is Send && !(a is ConfirmPending) ==> !a.destructive(),
{
}

/// What a refresh result does to the view, with `nanos` as the jitter
/// source, and the wait `r` it returns (see `apply_refresh_result`).
pub open spec fn refresh_applied(
    o: ViewModel,
    f: ViewModel,
    result: Result<(), AppError>,
    nanos: u64,
    r: Delay,
) -> bool {
    &&& f == (ViewModel { status_line: f.status_line, conn: f.conn, ..o })
    &&& match result {
        Ok(()) => f.conn == ConnView::Connected && f.status_line == connected_line() && r.millis
            == REFRESH_INTERVAL_MS,
        Err(e) => if e.transient() {
            let a = next_attempt(o.conn);
            let d = jittered_ms(a, nanos);
            &&& f.conn == (ConnView::Retrying { attempt: a, delay_ms: d as u64 })
            &&& r.millis == d
            &&& f.status_line == retrying_line(a, d as u64)
        } else {
            &&& f.conn == ConnView::TerminalError(e.message())
            &&& f.status_line == fatal_line(e.message())
            &&& r.millis == REFRESH_INTERVAL_MS
        },
    }
}

impl ViewState {
    /// The state on start-up: projects focused, nothing selected or
    /// pending, connecting.
    pub fn new() -> (r: Self)
        ensures
            r@ == (ViewModel {
                focus: FocusPane::Projects,
                status_line: "Connecting..."@,
                pending_confirmation: None,
                pending_action: None,
                should_quit: false,
                project_idx: 0,
                task_idx: 0,
                transfer_idx: 0,
                conn: ConnView::Connecting,
            }),
            pending_ok(r@),
    {
        ViewState {
            focus: FocusPane::Projects,
            status_line: string_of("Connecting..."),
            pending_confirmation: None,
            pending_action: None,
            should_quit: false,
            selected_project_idx: 0,
            selected_task_idx: 0,
            selected_transfer_idx: 0,
            conn: ConnectionState::Connecting,
        }
    }

    fn label_of(a: UserAction) -> (r: String)
        ensures
            r@ == action_label(a),
    {
        match a {
            UserAction::ProjectReset => string_of("ProjectReset"),
            UserAction::ProjectDetach => string_of("ProjectDetach"),
            UserAction::TaskAbort => string_of("TaskAbort"),
            _ => String::new(),
        }
    }

    fn request_for(&self, a: UserAction, targets: &Targets) -> (r: Option<RpcRequest>)
        ensures
            match action_request(a, self@, targets@) {
                Some(q) => r matches Some(x) && x@ == q,
                None => r is None,
            },
    {
        let p: usize = 0;
        let k = self.selected_task_idx;
        let f: usize = 0;
        let has_project = p < targets.project_urls.len();
        let has_task = k < targets.tasks.len();
        let has_transfer = f < targets.transfers.len();
        proof {
            if has_project {
                assert(targets@.projects[p as int] == targets.project_urls@[p as int]@);
            }
            if has_task {
                assert(targets@.tasks[k as int] == (
                    targets.tasks@[k as int].0@,
                    targets.tasks@[k as int].1@,
                ));
            }
            if has_transfer {
                assert(targets@.transfers[f as int] == (
                    targets.transfers@[f as int].0@,
                    targets.transfers@[f as int].1@,
                ));
            }
        }
        match a {
            UserAction::ProjectUpdate => if has_project {
                Some(BoincWriteApi::project_update(targets.project_urls[p].as_str()))
            } else {
                None
            },
            UserAction::ProjectSuspend => if has_project {
                Some(BoincWriteApi::project_suspend(targets.project_urls[p].as_str()))
            } else {
                None
            },
            UserAction::ProjectResume => if has_project {
                Some(BoincWriteApi::project_resume(targets.project_urls[p].as_str()))
            } else {
                None
            },
            UserAction::ProjectNoMoreWork => if has_project {
                Some(BoincWriteApi::project_no_more_work(targets.project_urls[p].as_str()))
            } else {
                None
            },
            UserAction::ProjectAllowMoreWork => if has_project {
                Some(BoincWriteApi::project_allow_more_work(targets.project_urls[p].as_str()))
            } else {
                None
            },
            UserAction::ProjectReset => if has_project {
                Some(BoincWriteApi::project_reset(targets.project_urls[p].as_str()))
            } else {
                None
            },
            UserAction::ProjectDetach => if has_project {
                Some(BoincWriteApi::project_detach(targets.project_urls[p].as_str()))
            } else {
                None
            },
            UserAction::TaskSuspend => if has_task {
                let t = &targets.tasks[k];
                Some(BoincWriteApi::task_suspend(t.0.as_str(), t.1.as_str()))
            } else {
                None
            },
            UserAction::TaskResume => if has_task {
                let t = &targets.tasks[k];
                Some(BoincWriteApi::task_resume(t.0.as_str(), t.1.as_str()))
            } else {
                None
            },
            UserAction::TaskAbort => if has_task {
                let t = &targets.tasks[k];
                Some(BoincWriteApi::task_abort(t.0.as_str(), t.1.as_str()))
            } else {
                None
            },
            UserAction::TransferRetry => if has_transfer {
                let t = &targets.transfers[f];
                Some(BoincWriteApi::transfer_retry(t.0.as_str(), t.1.as_str()))
            } else {
                None
            },
            UserAction::SetNetworkMode(m) => Some(BoincWriteApi::set_network_mode(m, 0)),
            UserAction::SetRunMode(m) => Some(BoincWriteApi::set_run_mode(m, 0)),
            UserAction::SetGpuMode(m) => Some(BoincWriteApi::set_gpu_mode(m, 0)),
            _ => None,
        }
    }

    fn navigate(&mut self, up: bool, targets: &Targets)
        ensures
            final(self)@ == navigated(old(self)@, up, targets@),
    {
        match self.focus {
            FocusPane::Projects => {
                let n = targets.project_urls.len();
                self.selected_project_idx = if up {
                    move_selection_up(self.selected_project_idx, n)
                } else {
                    move_selection_down(self.selected_project_idx, n)
                };
            },
            FocusPane::Tasks => {
                let n = targets.tasks.len();
                self.selected_task_idx = if up {
                    move_selection_up(self.selected_task_idx, n)
                } else {
                    move_selection_down(self.selected_task_idx, n)
                };
            },
            FocusPane::Transfers => {
                let n = targets.transfers.len();
                self.selected_transfer_idx = if up {
                    move_selection_up(self.selected_transfer_idx, n)
                } else {
                    move_selection_down(self.selected_transfer_idx, n)
                };
            },
        }
    }

    fn execute(&mut self, action: UserAction, targets: &Targets) -> (r: Effect)
        ensures
            (final(self)@, r@) == executed(old(self)@, action, targets@),
    {
        match action {
            UserAction::Quit => {
                self.should_quit = true;
                Effect::Nothing
            },
            UserAction::RefreshNow => Effect::Refresh,
            UserAction::CyclePane => {
                self.focus = self.focus.next();
                Effect::Nothing
            },
            UserAction::PreviousPane => {
                self.focus = self.focus.previous();
                Effect::Nothing
            },
            UserAction::MoveUp => {
                self.navigate(true, targets);
                Effect::Nothing
            },
            UserAction::MoveDown => {
                self.navigate(false, targets);
                Effect::Nothing
            },
            UserAction::SaveDiagnostics => Effect::SaveDiagnostics,
            UserAction::ConfirmPending => Effect::Nothing,
            UserAction::CancelPending => Effect::Nothing,
            _ => match self.request_for(action, targets) {
                Some(req) => Effect::Send(req),
                None => {
                    self.status_line = string_of("action succeeded");
                    Effect::RefreshQuietly
                },
            },
        }
    }

    /// Returns currently selected project URL (first project in list).
    pub fn selected_project_url(&self, targets: &Targets) -> (r: Option<String>)
        ensures
            match selected_project(targets@) {
                Some(u) => r matches Some(x) && x@ == u,
                None => r is None,
            },
    {
        if targets.project_urls.len() > 0 {
            proof {
                assert(targets@.projects[0] == targets.project_urls@[0]@);
            }
            Some(targets.project_urls[0].clone())
        } else {
            None
        }
    }

    /// The selected task's `(project_url, name)`, if any.
    pub fn selected_task(&self, targets: &Targets) -> (r: Option<(String, String)>)
        ensures
            match selected_task(self@, targets@) {
                Some(t) => r matches Some(x) && (x.0@, x.1@) == t,
                None => r is None,
            },
    {
        let k = self.selected_task_idx;
        if k < targets.tasks.len() {
            let t = &targets.tasks[k];
            proof {
                assert(targets@.tasks[k as int] == (t.0@, t.1@));
            }
            Some((t.0.clone(), t.1.clone()))
        } else {
            None
        }
    }

    /// Returns currently selected transfer (first transfer in list).
    pub fn selected_transfer(&self, targets: &Targets) -> (r: Option<(String, String)>)
        ensures
            match selected_transfer(targets@) {
                Some(t) => r matches Some(x) && (x.0@, x.1@) == t,
                None => r is None,
            },
    {
        if targets.transfers.len() > 0 {
            let t = &targets.transfers[0];
            proof {
                assert(targets@.transfers[0] == (t.0@, t.1@));
            }
            Some((t.0.clone(), t.1.clone()))
        } else {
            None
        }
    }

    /// Decides what a keyboard action does (see [`apply_action`]).
    pub fn handle_action(&mut self, action: UserAction, targets: &Targets) -> (r: Effect)
        ensures
            (final(self)@, r@) == apply_action(old(self)@, action, targets@),
    {
        match action {
            UserAction::ConfirmPending => {
                match self.pending_action {
                    Some(p) => {
                        self.pending_action = None;
                        self.pending_confirmation = None;
                        self.execute(p, targets)
                    },
                    None => Effect::Nothing,
                }
            },
            UserAction::CancelPending => {
                self.pending_action = None;
                self.pending_confirmation = None;
                self.status_line = string_of("Cancelled pending action");
                Effect::Nothing
            },
            _ => {
                if action.is_destructive() {
                    self.pending_action = Some(action);
                    self.pending_confirmation = Some(Self::label_of(action));
                    Effect::Nothing
                } else {
                    self.execute(action, targets)
                }
            },
        }
    }

    /// Records the outcome of a user-requested refresh.
    pub fn refresh_finished(&mut self, result: Result<(), AppError>)
        ensures
            final(self)@ == (ViewModel { status_line: final(self)@.status_line, ..old(self)@ }),
            ({
                let line = final(self)@.status_line;
                match result {
                    Ok(_) => line == "refresh completed"@,
                    Err(e) => line.take(16) == "refresh failed: "@ && describes(line.skip(16), e),
                }
            }),
    {
        match result {
            Ok(()) => {
                self.status_line = string_of("refresh completed");
            },
            Err(e) => {
                let text = e.to_string();
                let line = cat(string_of("refresh failed: "), text.as_str());
                proof {
                    reveal_strlit("refresh failed: ");
                    assert(line@.take(16) =~= "refresh failed: "@);
                    assert(line@.skip(16) =~= text@);
                }
                self.status_line = line;
            },
        }
    }

    /// Records the outcome of a sent action; returns whether the lists
    /// should then be refreshed quietly (on success).
    pub fn rpc_finished(&mut self, result: Result<String, AppError>) -> (r: bool)
        ensures
            final(self)@ == (ViewModel { status_line: final(self)@.status_line, ..old(self)@ }),
            r == result is Ok,
            ({
                let line = final(self)@.status_line;
                match result {
                    Ok(_) => line == "action succeeded"@,
                    Err(e) => line.take(15) == "action failed: "@ && describes(line.skip(15), e),
                }
            }),
    {
        match result {
            Ok(_) => {
                self.status_line = string_of("action succeeded");
                true
            },
            Err(e) => {
                let text = e.to_string();
                let line = cat(string_of("action failed: "), text.as_str());
                proof {
                    reveal_strlit("action failed: ");
                    assert(line@.take(15) =~= "action failed: "@);
                    assert(line@.skip(15) =~= text@);
                }
                self.status_line = line;
                false
            },
        }
    }

    /// Records where the diagnostics snapshot went (`Ok(path)`) or why it
    /// could not be written (`Err(reason)`).
    pub fn diagnostics_saved(&mut self, result: Result<String, String>)
        ensures
            final(self)@ == (ViewModel { status_line: final(self)@.status_line, ..old(self)@ }),
            result matches Ok(p) ==> final(self)@.status_line == "diagnostics saved to "@ + p@,
            result matches Err(e) ==> final(self)@.status_line == "failed to save diagnostics: "@
                + e@,
    {
        match result {
            Ok(p) => {
                self.status_line = cat(string_of("diagnostics saved to "), p.as_str());
            },
            Err(e) => {
                self.status_line = cat(string_of("failed to save diagnostics: "), e.as_str());
            },
        }
    }

    /// Keeps every selection on a listed item after the lists changed.
    pub fn normalize_selection(&mut self, projects: usize, tasks: usize, transfers: usize)
        ensures
            final(self)@ == (ViewModel {
                project_idx: selection_clamped(old(self)@.project_idx, projects as nat),
                task_idx: selection_clamped(old(self)@.task_idx, tasks as nat),
                transfer_idx: selection_clamped(old(self)@.transfer_idx, transfers as nat),
                ..old(self)@
            }),
    {
        self.selected_project_idx = clamp_selection(self.selected_project_idx, projects);
        self.selected_task_idx = clamp_selection(self.selected_task_idx, tasks);
        self.selected_transfer_idx = clamp_selection(self.selected_transfer_idx, transfers);
    }

    /// Applies the outcome of a refresh to the connection state, with
    /// `nanos` as the jitter source, and returns the wait before the next
    /// refresh: the regular interval after a success or a fatal error, the
    /// backoff of the retry streak after a transient error.
    pub fn apply_refresh_result(&mut self, result: Result<(), AppError>, nanos: u64) -> (r: Delay)
        ensures
            refresh_applied(old(self)@, final(self)@, result, nanos, r),
    {
        match result {
            Ok(()) => {
                self.conn = ConnectionState::Connected;
                self.status_line = string_of("Connected. Refreshing every 2s.");
                Delay { millis: REFRESH_INTERVAL_MS }
            },
            Err(e) => {
                if e.is_transient() {
                    let attempt: u32 = match &self.conn {
                        ConnectionState::Retrying { attempt, .. } => if *attempt < u32::MAX {
                            *attempt + 1
                        } else {
                            *attempt
                        },
                        _ => 1,
                    };
                    let ms = backoff_ms(attempt, nanos);
                    let line = cat(string_of("Connection lost; retrying in "), decimal_string(ms).as_str());
                    let line = cat(line, " ms (attempt ");
                    let line = cat(line, decimal_string(attempt as u64).as_str());
                    let line = cat(line, ")");
                    self.conn = ConnectionState::Retrying { attempt, delay_ms: ms };
                    self.status_line = line;
                    Delay { millis: ms }
                } else {
                    let msg = e.to_string();
                    let line = cat(string_of("Fatal: "), msg.as_str());
                    let line = cat(line, ". Check BOINCRS_PASSWORD and GUI RPC access, then restart.");
                    self.conn = ConnectionState::TerminalError(msg);
                    self.status_line = line;
                    Delay { millis: REFRESH_INTERVAL_MS }
                }
            },
        }
    }

    /// Applies the outcome of a refresh to the connection state, taking the
    /// jitter from the clock's sub-second nanoseconds (0 when the clock
    /// cannot be read), and returns the wait before the next refresh.
    pub fn process_refresh_result(&mut self, result: Result<(), AppError>) -> (r: Delay)
        ensures
            exists|nanos: u64|
                nanos < 1_000_000_000 && #[trigger] refresh_applied(
                    old(self)@,
                    final(self)@,
                    result,
                    nanos,
                    r,
                ),
    {
        let nanos: u64 = match clock_subsec_nanos() {
            Some(n) => n as u64,
            None => 0,
        };
        self.apply_refresh_result(result, nanos)
    }
}

} // verus!
