//! Read requests and the mapping of their replies into domain models.
use vstd::prelude::*;

use crate::boinc::api::write::RpcRequest;
use crate::boinc::models::{ClientState, Project, RunMode, TaskStatus};
use crate::boinc::protocol::{
    blocks, mode_value, opt_chars, parse_cc_status, parse_projects, project_of,
    ParsedProjectView, ParsedTaskStatus,
};
use crate::error::AppError;
use crate::text::{char_below, code, string_of, to_chars};

verus! {

/// The outcome of comparing two items, as `std::cmp::Ordering` gives it.
#[derive(Debug, Clone, Copy, PartialEq, Eq, Structural)]
pub enum Order {
    Less,
    Equal,
    Greater,
}

/// Read-only BOINC API: the requests the refresh loop sends and the
/// mapping of their replies.
pub struct BoincReadApi;

/// The mathematical content of a [`Project`].
pub open spec fn project_view(p: Project) -> ParsedProjectView {
    ParsedProjectView {
        url: p.url@,
        name: p.name@,
        suspended_via_gui: p.suspended_via_gui,
        dont_request_more_work: p.dont_request_more_work,
    }
}

/// A client mode value: `1` always, `2` auto, `3` never; anything else,
/// or no value, is auto.
pub open spec fn run_mode_of(value: Option<Seq<char>>) -> RunMode {
    match value {
        Some(v) => if v == "1"@ {
            RunMode::Always
        } else if v == "2"@ {
            RunMode::Auto
        } else if v == "3"@ {
            RunMode::Never
        } else {
            RunMode::Auto
        },
        None => RunMode::Auto,
    }
}

/// Returns `run_mode_of(value)`.
pub fn map_run_mode(value: Option<String>) -> (r: RunMode)
    ensures
        r == run_mode_of(opt_chars(value)),
{
    match value {
        Some(v) => {
            let c = to_chars(v.as_str());
            if crate::text::chars_eq(&c, &to_chars("1")) {
                RunMode::Always
            } else if crate::text::chars_eq(&c, &to_chars("2")) {
                RunMode::Auto
            } else if crate::text::chars_eq(&c, &to_chars("3")) {
                RunMode::Never
            } else {
                RunMode::Auto
            }
        },
        None => RunMode::Auto,
    }
}

/// The UI status of a parsed task status (the same four buckets).
pub open spec fn task_status_of(s: ParsedTaskStatus) -> TaskStatus {
    match s {
        ParsedTaskStatus::Running => TaskStatus::Running,
        ParsedTaskStatus::WaitingToRun => TaskStatus::WaitingToRun,
        ParsedTaskStatus::ReadyToStart => TaskStatus::ReadyToStart,
        ParsedTaskStatus::ReadyToReport => TaskStatus::ReadyToReport,
    }
}

/// Returns `task_status_of(value)`.
pub fn map_task_status(value: ParsedTaskStatus) -> (r: TaskStatus)
    ensures
        r == task_status_of(value),
{
    match value {
        ParsedTaskStatus::Running => TaskStatus::Running,
        ParsedTaskStatus::WaitingToRun => TaskStatus::WaitingToRun,
        ParsedTaskStatus::ReadyToStart => TaskStatus::ReadyToStart,
        ParsedTaskStatus::ReadyToReport => TaskStatus::ReadyToReport,
    }
}

/// The display rank of a status: ready-to-report first, then running,
/// then waiting or ready to start.
pub open spec fn rank(status: TaskStatus) -> u8 {
    match status {
        TaskStatus::ReadyToReport => 0,
        TaskStatus::Running => 1,
        TaskStatus::WaitingToRun => 2,
        TaskStatus::ReadyToStart => 2,
    }
}

/// Returns `rank(status)`.
pub fn status_rank(status: TaskStatus) -> (r: u8)
    ensures
        r == rank(status),
{
    match status {
        TaskStatus::ReadyToReport => 0,
        TaskStatus::Running => 1,
        TaskStatus::WaitingToRun | TaskStatus::ReadyToStart => 2,
    }
}

/// The order of two numbers.
pub open spec fn int_order(a: int, b: int) -> Order {
    if a < b {
        Order::Less
    } else if a == b {
        Order::Equal
    } else {
        Order::Greater
    }
}

/// The lexicographic order of two texts by code point (`str`'s `Ord`).
pub open spec fn text_order(a: Seq<char>, b: Seq<char>) -> Order
    decreases a.len(),
{
    if a.len() == 0 {
        if b.len() == 0 {
            Order::Equal
        } else {
            Order::Less
        }
    } else if b.len() == 0 {
        Order::Greater
    } else if code(a[0]) < code(b[0]) {
        Order::Less
    } else if code(b[0]) < code(a[0]) {
        Order::Greater
    } else {
        text_order(a.drop_first(), b.drop_first())
    }
}

/// Returns `text_order(a, b)`.
pub fn compare_text(a: &str, b: &str) -> (r: Order)
    ensures
        r == text_order(a@, b@),
{
    let x = to_chars(a);
    let y = to_chars(b);
    let mut i: usize = 0;
    proof {
        assert(a@.skip(0) =~= a@);
        assert(b@.skip(0) =~= b@);
    }
    while i < x.len() && i < y.len() && x[i] == y[i]
        invariant
            i <= x@.len(),
            i <= y@.len(),
            x@ == a@,
            y@ == b@,
            text_order(a@, b@) == text_order(a@.skip(i as int), b@.skip(i as int)),
        decreases x@.len() - i,
    {
        proof {
            assert(a@.skip(i as int).drop_first() =~= a@.skip(i + 1));
            assert(b@.skip(i as int).drop_first() =~= b@.skip(i + 1));
        }
        i = i + 1;
    }
    if i == x.len() {
        if i == y.len() {
            Order::Equal
        } else {
            Order::Less
        }
    } else if i == y.len() {
        Order::Greater
    } else if char_below(x[i], y[i]) {
        Order::Less
    } else {
        Order::Greater
    }
}

/// The view order of two tasks: by rank; two running tasks by completion,
/// greatest first (`progress` is the order of the second task's completion
/// against the first's, equal when either is unknown or not comparable);
/// then by name.
pub open spec fn task_order(
    a_status: TaskStatus,
    a_name: Seq<char>,
    b_status: TaskStatus,
    b_name: Seq<char>,
    progress: Order,
) -> Order {
    if rank(a_status) != rank(b_status) {
        int_order(rank(a_status) as int, rank(b_status) as int)
    } else if a_status == TaskStatus::Running && b_status == TaskStatus::Running && !(progress
        == Order::Equal) {
        progress
    } else {
        text_order(a_name, b_name)
    }
}

/// Orders two tasks for the Tasks pane (see [`task_order`]).
pub fn compare_tasks_for_view(
    a_status: TaskStatus,
    a_name: &str,
    b_status: TaskStatus,
    b_name: &str,
    progress: Order,
) -> (r: Order)
    ensures
        r == task_order(a_status, a_name@, b_status, b_name@, progress),
{
    let ra = status_rank(a_status);
    let rb = status_rank(b_status);
    if ra < rb {
        return Order::Less;
    }
    if rb < ra {
        return Order::Greater;
    }
    let both_running = match (a_status, b_status) {
        (TaskStatus::Running, TaskStatus::Running) => true,
        _ => false,
    };
    if both_running {
        match progress {
            Order::Equal => {},
            _ => {
                return progress;
            },
        }
    }
    compare_text(a_name, b_name)
}

/// The client state a `get_cc_status` reply describes.
pub open spec fn client_state_of(xml: Seq<char>) -> (RunMode, RunMode, RunMode) {
    (
        run_mode_of(mode_value(xml, "network_mode"@)),
        run_mode_of(mode_value(xml, "task_mode"@)),
        run_mode_of(mode_value(xml, "gpu_mode"@)),
    )
}

impl BoincReadApi {
    /// The read API.
    pub fn new() -> (r: Self) {
        BoincReadApi
    }

    /// The project status request.
    pub fn projects_request(&self) -> (r: RpcRequest)
        ensures
            r@ == ("get_project_status"@, Seq::<char>::empty()),
    {
        RpcRequest { command: string_of("get_project_status"), payload: String::new() }
    }

    /// The task/result request, including inactive results.
    pub fn tasks_request(&self) -> (r: RpcRequest)
        ensures
            r@ == ("get_results"@, "<active_only>0</active_only>"@),
    {
        RpcRequest {
            command: string_of("get_results"),
            payload: string_of("<active_only>0</active_only>"),
        }
    }

    /// The transfer list request.
    pub fn transfers_request(&self) -> (r: RpcRequest)
        ensures
            r@ == ("get_file_transfers"@, Seq::<char>::empty()),
    {
        RpcRequest { command: string_of("get_file_transfers"), payload: String::new() }
    }

    /// The client status request.
    pub fn client_state_request(&self) -> (r: RpcRequest)
        ensures
            r@ == ("get_cc_status"@, Seq::<char>::empty()),
    {
        RpcRequest { command: string_of("get_cc_status"), payload: String::new() }
    }

    /// Maps a project status reply into [`Project`] items, one per
    /// `<project>` block, in order.
    pub fn projects(&self, reply: &str) -> (r: Result<Vec<Project>, AppError>)
        ensures
            r matches Ok(v) && v@.map_values(|p: Project| project_view(p)) == blocks(
                reply@,
                "project"@,
            ).map_values(|b: Seq<char>| project_of(b)),
    {
        let parsed = match parse_projects(reply) {
            Ok(p) => p,
            Err(e) => return Err(e),
        };
        let ghost target = blocks(reply@, "project"@).map_values(|b: Seq<char>| project_of(b));
        let mut out: Vec<Project> = Vec::new();
        let mut i: usize = 0;
        while i < parsed.len()
            invariant
                i <= parsed@.len(),
                parsed@.map_values(|p: crate::boinc::protocol::ParsedProject| p@) == target,
                out@.map_values(|p: Project| project_view(p)) == target.take(i as int),
            decreases parsed@.len() - i,
        {
            let item = &parsed[i];
            let ghost before = out@.map_values(|p: Project| project_view(p));
            out.push(
                Project {
                    url: item.url.clone(),
                    name: item.name.clone(),
                    suspended_via_gui: item.suspended_via_gui,
                    dont_request_more_work: item.dont_request_more_work,
                },
            );
            proof {
                assert(target[i as int] == item@);
                assert(out@.map_values(|p: Project| project_view(p)) =~= before.push(item@));
                assert(target.take(i + 1) =~= target.take(i as int).push(target[i as int]));
            }
            i = i + 1;
        }
        proof {
            assert(target.take(parsed@.len() as int) =~= target);
        }
        Ok(out)
    }

    /// Maps a client status reply into a [`ClientState`] with no messages.
    pub fn client_state(&self, reply: &str) -> (r: Result<ClientState, AppError>)
        ensures
            r matches Ok(s) && (s.network_mode, s.run_mode, s.gpu_mode) == client_state_of(reply@)
                && s.messages@.len() == 0,
    {
        let parsed = match parse_cc_status(reply) {
            Ok(p) => p,
            Err(e) => return Err(e),
        };
        Ok(
            ClientState {
                network_mode: map_run_mode(parsed.network_mode),
                run_mode: map_run_mode(parsed.task_mode),
                gpu_mode: map_run_mode(parsed.gpu_mode),
                messages: Vec::new(),
            },
        )
    }
}

/// Tasks of a lower rank always come first, whatever their names and
/// progress.
pub proof fn lemma_rank_decides_order(
    a_status: TaskStatus,
    a_name: Seq<char>,
    b_status: TaskStatus,
    b_name: Seq<char>,
    progress: Order,
)
    requires
        rank(a_status) < rank(b_status),
    ensures
        task_order(a_status, a_name, b_status, b_name, progress) == Order::Less,
{
}

/// Swapping the two texts reverses their order.
pub proof fn lemma_text_order_antisymmetric(a: Seq<char>, b: Seq<char>)
    ensures
        text_order(a, b) == Order::Less <==> text_order(b, a) == Order::Greater,
        text_order(a, b) == Order::Equal <==> a == b,
    decreases a.len(),
{
    if a.len() == 0 && b.len() == 0 {
        assert(a =~= b);
    } else if a.len() > 0 && b.len() > 0 && code(a[0]) == code(b[0]) {
        assert(a[0] == b[0]);
        lemma_text_order_antisymmetric(a.drop_first(), b.drop_first());
        if a.drop_first() == b.drop_first() {
            assert(a =~= seq![a[0]] + a.drop_first());
            assert(b =~= seq![b[0]] + b.drop_first());
        }
        if a == b {
            assert(a.drop_first() =~= b.drop_first());
        }
    } else if a.len() > 0 && b.len() > 0 {
        assert(a[0] != b[0]);
    }
}


/// The opposite outcome: what comparing the other way round gives.
pub open spec fn reversed(o: Order) -> Order {
    match o {
        Order::Less => Order::Greater,
        Order::Equal => Order::Equal,
        Order::Greater => Order::Less,
    }
}

/// Comparing two tasks the other way round (with the completion comparison
/// reversed too) gives the opposite outcome, so the view order is a
/// consistent comparator for sorting.
pub proof fn lemma_task_order_antisymmetric(
    a_status: TaskStatus,
    a_name: Seq<char>,
    b_status: TaskStatus,
    b_name: Seq<char>,
    progress: Order,
)
    ensures
        task_order(a_status, a_name, b_status, b_name, progress) == reversed(
            task_order(b_status, b_name, a_status, a_name, reversed(progress)),
        ),
{
    lemma_text_order_antisymmetric(a_name, b_name);
    lemma_text_order_antisymmetric(b_name, a_name);
}

} // verus!
