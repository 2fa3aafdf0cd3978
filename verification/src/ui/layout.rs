//! Text of the task details box and the status bar.
use vstd::prelude::*;

use crate::app::state::ViewState;
use crate::boinc::models::{ClientState, TaskStatus};
use crate::text::{
    cat, decimal, decimal_string, find_char_exec, find_char_from, lemma_find_char_props,
    slice_of, starts_with, starts_with_exec, string_of, strip_trailing, strip_trailing_exec,
    from_chars, to_chars,
};
use crate::ui::widgets::status::{client_summary, summary};

verus! {

/// The long label of a task status.
pub open spec fn status_label(status: TaskStatus) -> Seq<char> {
    match status {
        TaskStatus::Running => "running"@,
        TaskStatus::WaitingToRun => "waiting-to-run"@,
        TaskStatus::ReadyToStart => "ready-to-start"@,
        TaskStatus::ReadyToReport => "ready-to-report"@,
    }
}

/// Returns `status_label(status)`.
pub fn task_status_label(status: TaskStatus) -> (r: &'static str)
    ensures
        r@ == status_label(status),
{
    match status {
        TaskStatus::Running => "running",
        TaskStatus::WaitingToRun => "waiting-to-run",
        TaskStatus::ReadyToStart => "ready-to-start",
        TaskStatus::ReadyToReport => "ready-to-report",
    }
}

/// `s` with every leading copy of `p` removed (`str::trim_start_matches`).
pub open spec fn strip_all_prefixes(s: Seq<char>, p: Seq<char>) -> Seq<char>
    decreases s.len(),
{
    if p.len() > 0 && starts_with(s, p) {
        strip_all_prefixes(s.skip(p.len() as int), p)
    } else {
        s
    }
}

/// The part of `s` before its first `c`, or all of `s`.
pub open spec fn before_char(s: Seq<char>, c: char) -> Seq<char> {
    match find_char_from(s, c, 0) {
        Some(i) => s.take(i),
        None => s,
    }
}

/// The host part of a project URL: scheme prefixes and trailing slashes
/// removed, then everything from the first `/` on.
pub open spec fn short_project_of(url: Seq<char>) -> Seq<char> {
    before_char(
        strip_trailing(strip_all_prefixes(strip_all_prefixes(url, "https://"@), "http://"@), '/'),
        '/',
    )
}

fn strip_all_prefixes_exec(s: Vec<char>, p: &[char]) -> (r: Vec<char>)
    ensures
        r@ == strip_all_prefixes(s@, p@),
    decreases s@.len(),
{
    if p.len() > 0 && starts_with_exec(&s, p) {
        let n = s.len();
        let rest = slice_of(&s, p.len(), n);
        proof {
            assert(rest@ =~= s@.skip(p@.len() as int));
        }
        strip_all_prefixes_exec(rest, p)
    } else {
        s
    }
}

/// Returns `short_project_of(url)`.
pub fn short_project(url: &str) -> (r: String)
    ensures
        r@ == short_project_of(url@),
{
    let a = strip_all_prefixes_exec(to_chars(url), &to_chars("https://"));
    let b = strip_all_prefixes_exec(a, &to_chars("http://"));
    let c = strip_trailing_exec(&b, '/');
    match find_char_exec(&c, '/', 0) {
        Some(i) => {
            proof {
                lemma_find_char_props(c@, '/', 0);
            }
            from_chars(&slice_of(&c, 0, i))
        },
        None => from_chars(&c),
    }
}

/// Two-digit zero padding (`{:02}`).
pub open spec fn pad2(n: nat) -> Seq<char> {
    if n < 10 {
        "0"@ + decimal(n)
    } else {
        decimal(n)
    }
}

fn pad2_exec(n: u64) -> (r: String)
    ensures
        r@ == pad2(n as nat),
{
    if n < 10 {
        cat(string_of("0"), decimal_string(n).as_str())
    } else {
        decimal_string(n)
    }
}

/// `hh:mm:ss` for a number of whole seconds (hours may take more digits).
pub open spec fn hms(total: nat) -> Seq<char> {
    pad2(total / 3600) + ":"@ + pad2((total % 3600) / 60) + ":"@ + pad2(total % 60)
}

/// Formats whole seconds as `hh:mm:ss`.
pub fn format_hms(total: u64) -> (r: String)
    ensures
        r@ == hms(total as nat),
{
    let h = pad2_exec(total / 3600);
    let m = pad2_exec((total % 3600) / 60);
    let s = pad2_exec(total % 60);
    let r = cat(h, ":");
    let r = cat(r, m.as_str());
    let r = cat(r, ":");
    cat(r, s.as_str())
}

/// `in {days}d {hours}h` for a number of whole seconds ahead.
pub open spec fn due_in(total: nat) -> Seq<char> {
    "in "@ + decimal(total / 86_400) + "d "@ + decimal((total % 86_400) / 3_600) + "h"@
}

/// Formats a deadline that lies `total` whole seconds ahead.
pub fn format_due_in(total: u64) -> (r: String)
    ensures
        r@ == due_in(total as nat),
{
    let r = cat(string_of("in "), decimal_string(total / 86_400).as_str());
    let r = cat(r, "d ");
    let r = cat(r, decimal_string((total % 86_400) / 3_600).as_str());
    cat(r, "h")
}

/// The details box when no task is selected.
pub open spec fn no_task_details(c: ClientState) -> Seq<char> {
    "No task selected\nclient: "@ + client_summary(c)
}

/// The details box for a selected task, from its already formatted
/// progress, durations and deadline.
pub open spec fn task_details(
    name: Seq<char>,
    project_url: Seq<char>,
    progress: Seq<char>,
    status: TaskStatus,
    elapsed: Seq<char>,
    remaining: Seq<char>,
    deadline: Seq<char>,
    application: Option<Seq<char>>,
    c: ClientState,
) -> Seq<char> {
    "name:"@ + name + " | project:"@ + short_project_of(project_url) + " | progress:"@ + progress
        + " | status:"@ + status_label(status) + "\nelapsed:"@ + elapsed + " | remaining:"@
        + remaining + " | deadline:"@ + deadline + " | application:"@ + match application {
        Some(a) => a,
        None => "n/a"@,
    } + " | client: "@ + client_summary(c)
}

/// Renders the details box when no task is selected.
pub fn no_task_selected_details(client: &ClientState) -> (r: String)
    ensures
        r@ == no_task_details(*client),
{
    cat(string_of("No task selected\nclient: "), summary(client).as_str())
}

/// Renders the details box of a selected task.
pub fn selected_task_details(
    name: &str,
    project_url: &str,
    progress: &str,
    status: TaskStatus,
    elapsed: &str,
    remaining: &str,
    deadline: &str,
    application: Option<&str>,
    client: &ClientState,
) -> (r: String)
    ensures
        r@ == task_details(
            name@,
            project_url@,
            progress@,
            status,
            elapsed@,
            remaining@,
            deadline@,
            match application {
                Some(a) => Some(a@),
                None => None,
            },
            *client,
        ),
{
    let r = cat(string_of("name:"), name);
    let r = cat(r, " | project:");
    let r = cat(r, short_project(project_url).as_str());
    let r = cat(r, " | progress:");
    let r = cat(r, progress);
    let r = cat(r, " | status:");
    let r = cat(r, task_status_label(status));
    let r = cat(r, "\nelapsed:");
    let r = cat(r, elapsed);
    let r = cat(r, " | remaining:");
    let r = cat(r, remaining);
    let r = cat(r, " | deadline:");
    let r = cat(r, deadline);
    let r = cat(r, " | application:");
    let r = match application {
        Some(a) => cat(r, a),
        None => cat(r, "n/a"),
    };
    let r = cat(r, " | client: ");
    cat(r, summary(client).as_str())
}

/// The status bar: the pending confirmation prompt when an action awaits
/// confirmation, else the status line.
pub fn status_bar_text(view: &ViewState) -> (r: String)
    ensures
        r@ == match view@.pending_confirmation {
            Some(p) => "PENDING CONFIRMATION: "@ + p + " (y/n)"@,
            None => view@.status_line,
        },
{
    match &view.pending_confirmation {
        Some(p) => {
            let r = cat(string_of("PENDING CONFIRMATION: "), p.as_str());
            cat(r, " (y/n)")
        },
        None => view.status_line.clone(),
    }
}

} // verus!
