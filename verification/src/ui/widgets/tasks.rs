//! Text of the Tasks pane.
use vstd::prelude::*;

use crate::boinc::models::TaskStatus;
use crate::text::{cat, decimal, decimal_string, from_chars, string_of, to_chars, slice_of, push_all};

verus! {

/// The short tag of a task status.
pub open spec fn tag_of(status: TaskStatus) -> Seq<char> {
    match status {
        TaskStatus::Running => "[RUN]"@,
        TaskStatus::WaitingToRun => "[WAIT]"@,
        TaskStatus::ReadyToStart => "[READY]"@,
        TaskStatus::ReadyToReport => "[REPORT]"@,
    }
}

/// Returns `tag_of(status)`.
pub fn status_tag(status: TaskStatus) -> (r: &'static str)
    ensures
        r@ == tag_of(status),
{
    match status {
        TaskStatus::Running => "[RUN]",
        TaskStatus::WaitingToRun => "[WAIT]",
        TaskStatus::ReadyToStart => "[READY]",
        TaskStatus::ReadyToReport => "[REPORT]",
    }
}

/// The group a task is listed under.
pub open spec fn heading_of(status: TaskStatus) -> Seq<char> {
    match status {
        TaskStatus::ReadyToReport => "READY TO REPORT"@,
        TaskStatus::Running => "RUNNING"@,
        TaskStatus::WaitingToRun => "WAITING / READY"@,
        TaskStatus::ReadyToStart => "WAITING / READY"@,
    }
}

/// Returns `heading_of(status)`.
pub fn group_heading(status: TaskStatus) -> (r: &'static str)
    ensures
        r@ == heading_of(status),
{
    match status {
        TaskStatus::ReadyToReport => "READY TO REPORT",
        TaskStatus::Running => "RUNNING",
        TaskStatus::WaitingToRun | TaskStatus::ReadyToStart => "WAITING / READY",
    }
}

/// Two statuses are listed under the same heading.
pub open spec fn same_group(a: TaskStatus, b: TaskStatus) -> bool {
    heading_of(a) == heading_of(b)
}

fn same_group_exec(a: TaskStatus, b: TaskStatus) -> (r: bool)
    ensures
        r == same_group(a, b),
{
    let r = match (a, b) {
        (TaskStatus::ReadyToReport, TaskStatus::ReadyToReport) => true,
        (TaskStatus::Running, TaskStatus::Running) => true,
        (TaskStatus::WaitingToRun, TaskStatus::WaitingToRun) => true,
        (TaskStatus::WaitingToRun, TaskStatus::ReadyToStart) => true,
        (TaskStatus::ReadyToStart, TaskStatus::WaitingToRun) => true,
        (TaskStatus::ReadyToStart, TaskStatus::ReadyToStart) => true,
        _ => false,
    };
    proof {
        reveal_strlit("READY TO REPORT");
        reveal_strlit("RUNNING");
        reveal_strlit("WAITING / READY");
        if !r {
            assert(heading_of(a) != heading_of(b)) by {
                if heading_of(a).len() == heading_of(b).len() {
                    assert(heading_of(a)[0] != heading_of(b)[0] || heading_of(a)[1] != heading_of(b)[1]);
                }
            }
        }
    }
    r
}

/// Which rows of a listing start a new group: the first row, and every row
/// whose heading differs from the row before.
pub open spec fn starts_group(statuses: Seq<TaskStatus>, i: int) -> bool {
    i == 0 || !same_group(statuses[i - 1], statuses[i])
}

/// For each row, whether its group heading is shown above it.
pub fn group_starts(statuses: &[TaskStatus]) -> (r: Vec<bool>)
    ensures
        r@.len() == statuses@.len(),
        forall|i: int| 0 <= i < statuses@.len() ==> r@[i] == starts_group(statuses@, i),
{
    let mut out: Vec<bool> = Vec::new();
    let mut i: usize = 0;
    while i < statuses.len()
        invariant
            i <= statuses@.len(),
            out@.len() == i,
            forall|j: int| 0 <= j < i ==> out@[j] == starts_group(statuses@, j),
        decreases statuses@.len() - i,
    {
        let b = if i == 0 {
            true
        } else {
            !same_group_exec(statuses[i - 1], statuses[i])
        };
        out.push(b);
        i = i + 1;
    }
    out
}

/// The decimal text of a signed number (`{}` of an `i32`).
pub open spec fn signed_decimal(n: int) -> Seq<char> {
    if n < 0 {
        "-"@ + decimal((0 - n) as nat)
    } else {
        decimal(n as nat)
    }
}

fn signed_decimal_exec(n: i32) -> (r: String)
    ensures
        r@ == signed_decimal(n as int),
{
    if n < 0 {
        let m: i64 = 0 - (n as i64);
        cat(string_of("-"), decimal_string(m as u64).as_str())
    } else {
        decimal_string(n as u64)
    }
}

/// The markers after a task's status tag: ` [active]`, ` [paused]` and
/// ` [exit:{code}]` for a non-zero exit code, in that order.
pub open spec fn task_markers(active: bool, suspended: bool, exit_status: Option<i32>) -> Seq<char> {
    (if active {
        " [active]"@
    } else {
        Seq::empty()
    }) + (if suspended {
        " [paused]"@
    } else {
        Seq::empty()
    }) + match exit_status {
        Some(code) => if code != 0 {
            " [exit:"@ + signed_decimal(code as int) + "]"@
        } else {
            Seq::empty()
        },
        None => Seq::empty(),
    }
}

/// Renders `task_markers(active, suspended, exit_status)`.
pub fn task_flags(active: bool, suspended: bool, exit_status: Option<i32>) -> (r: String)
    ensures
        r@ == task_markers(active, suspended, exit_status),
{
    let r = if active {
        string_of(" [active]")
    } else {
        String::new()
    };
    let r = if suspended {
        cat(r, " [paused]")
    } else {
        r
    };
    match exit_status {
        Some(code) => if code != 0 {
            let r = cat(r, " [exit:");
            let r = cat(r, signed_decimal_exec(code).as_str());
            cat(r, "]")
        } else {
            r
        },
        None => r,
    }
}

/// `input` cut to at most `max_chars` characters, the last kept one
/// replaced by `…` when anything was cut.
pub open spec fn truncated(input: Seq<char>, max_chars: nat) -> Seq<char> {
    if input.len() <= max_chars {
        input
    } else if max_chars <= 1 {
        seq!['…']
    } else {
        input.take(max_chars - 1).push('…')
    }
}

/// Returns `truncated(input, max_chars)`.
pub fn truncate_with_ellipsis(input: &str, max_chars: usize) -> (r: String)
    ensures
        r@ == truncated(input@, max_chars as nat),
{
    let chars = to_chars(input);
    if chars.len() <= max_chars {
        return string_of(input);
    }
    if max_chars <= 1 {
        let mut v: Vec<char> = Vec::new();
        v.push('…');
        assert(v@ =~= seq!['…']);
        return from_chars(&v);
    }
    let mut kept = slice_of(&chars, 0, max_chars - 1);
    kept.push('…');
    assert(kept@ =~= input@.take(max_chars - 1).push('…'));
    from_chars(&kept)
}

/// A truncated text never exceeds its limit (for a limit of at least one).
pub proof fn lemma_truncated_fits(input: Seq<char>, max_chars: nat)
    requires
        max_chars >= 1,
    ensures
        truncated(input, max_chars).len() <= max_chars,
        input.len() <= max_chars ==> truncated(input, max_chars) == input,
{
}

} // verus!
