//! Typed BOINC domain models shared by the parsers and the UI logic.
use vstd::prelude::*;

verus! {

/// BOINC project summary shown in the Projects pane.
#[derive(Debug, Clone, Default)]
pub struct Project {
    /// Project master URL.
    pub url: String,
    /// Human-readable project name.
    pub name: String,
    /// Whether suspended via GUI RPC command.
    pub suspended_via_gui: bool,
    /// Whether project is set to no-more-work mode.
    pub dont_request_more_work: bool,
}

/// Normalized task status used by UI grouping and coloring.
#[derive(Debug, Clone, Copy, PartialEq, Eq, Structural, Default)]
pub enum TaskStatus {
    /// Task currently executing.
    Running,
    /// Task is queued/preempted and waiting to run.
    WaitingToRun,
    /// Task can start but is not currently running.
    #[default]
    ReadyToStart,
    /// Task completed and ready to upload/report.
    ReadyToReport,
}

/// BOINC run mode setting values.
#[derive(Debug, Clone, Copy, PartialEq, Eq, Structural)]
pub enum RunMode {
    /// Always enabled.
    Always,
    /// Automatic behavior.
    Auto,
    /// Disabled.
    Never,
}

impl RunMode {
    /// The BOINC mode tag of this mode.
    pub open spec fn tag(self) -> Seq<char> {
        match self {
            RunMode::Always => "always"@,
            RunMode::Auto => "auto"@,
            RunMode::Never => "never"@,
        }
    }

    /// Returns the BOINC mode tag used in `set_*_mode` requests
    /// (`always`, `auto` or `never`).
    pub fn as_boinc_tag(self) -> (r: &'static str)
        ensures
            r@ == self.tag(),
    {
        match self {
            RunMode::Always => "always",
            RunMode::Auto => "auto",
            RunMode::Never => "never",
        }
    }
}

/// Client-wide BOINC status snapshot.
#[derive(Debug, Clone)]
pub struct ClientState {
    /// Network activity mode.
    pub network_mode: RunMode,
    /// CPU run mode.
    pub run_mode: RunMode,
    /// GPU run mode.
    pub gpu_mode: RunMode,
    /// Optional message text payloads.
    pub messages: Vec<String>,
}

impl Default for ClientState {
    /// All three modes `Auto`, no messages.
    fn default() -> (r: Self)
        ensures
            r.network_mode == RunMode::Auto,
            r.run_mode == RunMode::Auto,
            r.gpu_mode == RunMode::Auto,
            r.messages@.len() == 0,
    {
        ClientState {
            network_mode: RunMode::Auto,
            run_mode: RunMode::Auto,
            gpu_mode: RunMode::Auto,
            messages: Vec::new(),
        }
    }
}

} // verus!
