//! The one-line client summary.
use vstd::prelude::*;

use crate::boinc::models::{ClientState, RunMode};
use crate::text::{cat, decimal, decimal_string, string_of};

verus! {

/// The `Debug` name of a run mode.
pub open spec fn mode_name(m: RunMode) -> Seq<char> {
    match m {
        RunMode::Always => "Always"@,
        RunMode::Auto => "Auto"@,
        RunMode::Never => "Never"@,
    }
}

fn mode_name_exec(m: RunMode) -> (r: &'static str)
    ensures
        r@ == mode_name(m),
{
    match m {
        RunMode::Always => "Always",
        RunMode::Auto => "Auto",
        RunMode::Never => "Never",
    }
}

/// `run:{run} net:{network} gpu:{gpu} msgs:{count}`.
pub open spec fn client_summary(c: ClientState) -> Seq<char> {
    "run:"@ + mode_name(c.run_mode) + " net:"@ + mode_name(c.network_mode) + " gpu:"@ + mode_name(
        c.gpu_mode,
    ) + " msgs:"@ + decimal(c.messages@.len())
}

/// Renders `client_summary(client_state)`.
pub fn summary(client_state: &ClientState) -> (r: String)
    ensures
        r@ == client_summary(*client_state),
{
    let r = cat(string_of("run:"), mode_name_exec(client_state.run_mode));
    let r = cat(r, " net:");
    let r = cat(r, mode_name_exec(client_state.network_mode));
    let r = cat(r, " gpu:");
    let r = cat(r, mode_name_exec(client_state.gpu_mode));
    let r = cat(r, " msgs:");
    let n = client_state.messages.len();
    cat(r, decimal_string(n as u64).as_str())
}

} // verus!
