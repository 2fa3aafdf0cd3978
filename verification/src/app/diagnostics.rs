//! Text of the diagnostics snapshot: its file name, header, section
//! headings and project lines.
use vstd::prelude::*;

use crate::boinc::models::{ClientState, Project};
use crate::text::{cat, decimal, decimal_string, string_of};
use crate::ui::widgets::status::mode_name;

verus! {

/// `true` or `false`, as `{}` prints a `bool`.
pub open spec fn bool_text(b: bool) -> Seq<char> {
    if b {
        "true"@
    } else {
        "false"@
    }
}

fn bool_text_exec(b: bool) -> (r: &'static str)
    ensures
        r@ == bool_text(b),
{
    if b {
        "true"
    } else {
        "false"
    }
}

fn mode_text(m: crate::boinc::models::RunMode) -> (r: &'static str)
    ensures
        r@ == mode_name(m),
{
    match m {
        crate::boinc::models::RunMode::Always => "Always",
        crate::boinc::models::RunMode::Auto => "Auto",
        crate::boinc::models::RunMode::Never => "Never",
    }
}

/// The snapshot's file name for a UNIX timestamp.
pub open spec fn file_name_of(epoch_secs: nat) -> Seq<char> {
    "boincrs-diag-"@ + decimal(epoch_secs) + ".txt"@
}

/// Returns `file_name_of(epoch_secs)`.
pub fn diagnostics_file_name(epoch_secs: u64) -> (r: String)
    ensures
        r@ == file_name_of(epoch_secs as nat),
{
    let r = cat(string_of("boincrs-diag-"), decimal_string(epoch_secs).as_str());
    cat(r, ".txt")
}

/// The snapshot's header: the timestamp and the client modes.
pub open spec fn header_of(epoch_secs: nat, c: ClientState) -> Seq<char> {
    "boincrs diagnostics — epoch "@ + decimal(epoch_secs) + "\nclient: run="@ + mode_name(c.run_mode)
        + " net="@ + mode_name(c.network_mode) + " gpu="@ + mode_name(c.gpu_mode) + " msgs="@
        + decimal(c.messages@.len()) + "\n\n"@
}

/// Returns `header_of(epoch_secs, client)`.
pub fn diagnostics_header(epoch_secs: u64, client: &ClientState) -> (r: String)
    ensures
        r@ == header_of(epoch_secs as nat, *client),
{
    let r = cat(string_of("boincrs diagnostics — epoch "), decimal_string(epoch_secs).as_str());
    let r = cat(r, "\nclient: run=");
    let r = cat(r, mode_text(client.run_mode));
    let r = cat(r, " net=");
    let r = cat(r, mode_text(client.network_mode));
    let r = cat(r, " gpu=");
    let r = cat(r, mode_text(client.gpu_mode));
    let r = cat(r, " msgs=");
    let r = cat(r, decimal_string(client.messages.len() as u64).as_str());
    cat(r, "\n\n")
}

/// A section heading: `=== {name} ({count}) ===`, on a line of its own,
/// after a blank line unless it is the first section.
pub open spec fn section_of(name: Seq<char>, count: nat, first: bool) -> Seq<char> {
    (if first {
        Seq::empty()
    } else {
        "\n"@
    }) + "=== "@ + name + " ("@ + decimal(count) + ") ===\n"@
}

/// Returns `section_of(name, count, first)`.
pub fn diagnostics_section(name: &str, count: usize, first: bool) -> (r: String)
    ensures
        r@ == section_of(name@, count as nat, first),
{
    let r = if first {
        string_of("=== ")
    } else {
        string_of("\n=== ")
    };
    proof {
        reveal_strlit("\n=== ");
        reveal_strlit("=== ");
        reveal_strlit("\n");
        assert("\n"@ + "=== "@ =~= "\n=== "@);
        assert(Seq::<char>::empty() + "=== "@ =~= "=== "@);
    }
    let r = cat(r, name);
    let r = cat(r, " (");
    let r = cat(r, decimal_string(count as u64).as_str());
    cat(r, ") ===\n")
}

/// A project's line: name, URL and its two flags.
pub open spec fn project_diag_of(p: Project) -> Seq<char> {
    "  "@ + p.name@ + " | url:"@ + p.url@ + " | suspended:"@ + bool_text(p.suspended_via_gui)
        + " | nmw:"@ + bool_text(p.dont_request_more_work) + "\n"@
}

/// Returns `project_diag_of(project)`.
pub fn diagnostics_project_line(project: &Project) -> (r: String)
    ensures
        r@ == project_diag_of(*project),
{
    let r = cat(string_of("  "), project.name.as_str());
    let r = cat(r, " | url:");
    let r = cat(r, project.url.as_str());
    let r = cat(r, " | suspended:");
    let r = cat(r, bool_text_exec(project.suspended_via_gui));
    let r = cat(r, " | nmw:");
    let r = cat(r, bool_text_exec(project.dont_request_more_work));
    cat(r, "\n")
}

} // verus!
