//! BOINC write/control requests: project, task, transfer and mode commands.
use vstd::prelude::*;

use crate::boinc::models::RunMode;
use crate::text::{cat, decimal, decimal_string, string_of};

verus! {

/// One GUI RPC command: the command tag and the XML payload inside it.
#[derive(Debug, Clone)]
pub struct RpcRequest {
    /// Command tag, e.g. `project_update`.
    pub command: String,
    /// XML placed inside `<command>...</command>`; empty for a bare command.
    pub payload: String,
}

impl View for RpcRequest {
    type V = (Seq<char>, Seq<char>);

    open spec fn view(&self) -> (Seq<char>, Seq<char>) {
        (self.command@, self.payload@)
    }
}

/// `<tag>value</tag>`.
pub open spec fn element(tag: Seq<char>, value: Seq<char>) -> Seq<char> {
    "<"@ + tag + ">"@ + value + "</"@ + tag + ">"@
}

/// Builds `<tag>value</tag>`.
pub fn element_exec(tag: &str, value: &str) -> (r: String)
    ensures
        r@ == element(tag@, value@),
{
    let r = cat(string_of("<"), tag);
    let r = cat(r, ">");
    let r = cat(r, value);
    let r = cat(r, "</");
    let r = cat(r, tag);
    cat(r, ">")
}

/// The request for a project-level command carrying only `project_url`.
pub open spec fn project_request(command: Seq<char>, url: Seq<char>) -> (Seq<char>, Seq<char>) {
    (command, element("project_url"@, url))
}

/// The request for a task-level command on `(project_url, name)`.
pub open spec fn task_request(command: Seq<char>, url: Seq<char>, name: Seq<char>) -> (
    Seq<char>,
    Seq<char>,
) {
    (command, element("project_url"@, url) + element("name"@, name))
}

/// The request for a `set_*_mode` command.
pub open spec fn mode_request(command: Seq<char>, mode: RunMode, duration_secs: nat) -> (
    Seq<char>,
    Seq<char>,
) {
    (command, "<"@ + mode.tag() + "/>"@ + element("duration"@, decimal(duration_secs)))
}

/// Builders for BOINC write/control requests.
pub struct BoincWriteApi;

impl BoincWriteApi {
    /// The write API.
    pub fn new() -> (r: Self) {
        BoincWriteApi
    }

    /// A project-level command carrying only `project_url`.
    pub fn project_simple(command: &str, project_url: &str) -> (r: RpcRequest)
        ensures
            r@ == project_request(command@, project_url@),
    {
        RpcRequest {
            command: string_of(command),
            payload: element_exec("project_url", project_url),
        }
    }

    /// Requests scheduler update for a project.
    pub fn project_update(project_url: &str) -> (r: RpcRequest)
        ensures
            r@ == project_request("project_update"@, project_url@),
    {
        Self::project_simple("project_update", project_url)
    }

    /// Suspends all tasks for a project.
    pub fn project_suspend(project_url: &str) -> (r: RpcRequest)
        ensures
            r@ == project_request("project_suspend"@, project_url@),
    {
        Self::project_simple("project_suspend", project_url)
    }

    /// Resumes a suspended project.
    pub fn project_resume(project_url: &str) -> (r: RpcRequest)
        ensures
            r@ == project_request("project_resume"@, project_url@),
    {
        Self::project_simple("project_resume", project_url)
    }

    /// Prevents project from requesting new work.
    pub fn project_no_more_work(project_url: &str) -> (r: RpcRequest)
        ensures
            r@ == project_request("project_nomorework"@, project_url@),
    {
        Self::project_simple("project_nomorework", project_url)
    }

    /// Allows project to request new work again.
    pub fn project_allow_more_work(project_url: &str) -> (r: RpcRequest)
        ensures
            r@ == project_request("project_allowmorework"@, project_url@),
    {
        Self::project_simple("project_allowmorework", project_url)
    }

    /// Resets project (destructive).
    pub fn project_reset(project_url: &str) -> (r: RpcRequest)
        ensures
            r@ == project_request("project_reset"@, project_url@),
    {
        Self::project_simple("project_reset", project_url)
    }

    /// Detaches project (destructive).
    pub fn project_detach(project_url: &str) -> (r: RpcRequest)
        ensures
            r@ == project_request("project_detach"@, project_url@),
    {
        Self::project_simple("project_detach", project_url)
    }

    /// Attaches a BOINC project using account authenticator key.
    pub fn project_attach(project_url: &str, authenticator: &str) -> (r: RpcRequest)
        ensures
            r@ == ("project_attach"@, element("project_url"@, project_url@) + element(
                "authenticator"@,
                authenticator@,
            )),
    {
        let a = element_exec("project_url", project_url);
        let b = element_exec("authenticator", authenticator);
        RpcRequest { command: string_of("project_attach"), payload: cat(a, b.as_str()) }
    }

    /// A task-level action for a specific project/result.
    pub fn task_action(command: &str, project_url: &str, task_name: &str) -> (r: RpcRequest)
        ensures
            r@ == task_request(command@, project_url@, task_name@),
    {
        let a = element_exec("project_url", project_url);
        let b = element_exec("name", task_name);
        RpcRequest { command: string_of(command), payload: cat(a, b.as_str()) }
    }

    /// Suspends a task.
    pub fn task_suspend(project_url: &str, task_name: &str) -> (r: RpcRequest)
        ensures
            r@ == task_request("result_suspend"@, project_url@, task_name@),
    {
        Self::task_action("result_suspend", project_url, task_name)
    }

    /// Resumes a task.
    pub fn task_resume(project_url: &str, task_name: &str) -> (r: RpcRequest)
        ensures
            r@ == task_request("result_resume"@, project_url@, task_name@),
    {
        Self::task_action("result_resume", project_url, task_name)
    }

    /// Aborts a task (destructive).
    pub fn task_abort(project_url: &str, task_name: &str) -> (r: RpcRequest)
        ensures
            r@ == task_request("result_abort"@, project_url@, task_name@),
    {
        Self::task_action("result_abort", project_url, task_name)
    }

    /// Retries a failed transfer.
    pub fn transfer_retry(project_url: &str, file_name: &str) -> (r: RpcRequest)
        ensures
            r@ == ("retry_file_transfer"@, element("project_url"@, project_url@) + element(
                "filename"@,
                file_name@,
            )),
    {
        let a = element_exec("project_url", project_url);
        let b = element_exec("filename", file_name);
        RpcRequest { command: string_of("retry_file_transfer"), payload: cat(a, b.as_str()) }
    }

    /// A `set_*_mode` request: `<mode/><duration>secs</duration>`.
    fn set_mode(command: &str, mode: RunMode, duration_secs: u64) -> (r: RpcRequest)
        ensures
            r@ == mode_request(command@, mode, duration_secs as nat),
    {
        let p = cat(string_of("<"), mode.as_boinc_tag());
        let p = cat(p, "/>");
        let d = decimal_string(duration_secs);
        let e = element_exec("duration", d.as_str());
        RpcRequest { command: string_of(command), payload: cat(p, e.as_str()) }
    }

    /// Sets BOINC CPU run mode.
    pub fn set_run_mode(mode: RunMode, duration_secs: u64) -> (r: RpcRequest)
        ensures
            r@ == mode_request("set_run_mode"@, mode, duration_secs as nat),
    {
        Self::set_mode("set_run_mode", mode, duration_secs)
    }

    /// Sets BOINC network mode.
    pub fn set_network_mode(mode: RunMode, duration_secs: u64) -> (r: RpcRequest)
        ensures
            r@ == mode_request("set_network_mode"@, mode, duration_secs as nat),
    {
        Self::set_mode("set_network_mode", mode, duration_secs)
    }

    /// Sets BOINC GPU mode.
    pub fn set_gpu_mode(mode: RunMode, duration_secs: u64) -> (r: RpcRequest)
        ensures
            r@ == mode_request("set_gpu_mode"@, mode, duration_secs as nat),
    {
        Self::set_mode("set_gpu_mode", mode, duration_secs)
    }
}

} // verus!
