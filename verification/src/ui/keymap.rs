//! Key bindings: which key press triggers which [`UserAction`].
use vstd::prelude::*;

use crate::app::actions::UserAction;
use crate::boinc::models::RunMode;

verus! {

/// The keys the bindings distinguish; every other key is `Other`.
#[derive(Debug, Clone, Copy, PartialEq, Eq, Structural)]
pub enum KeyCode {
    Char(char),
    Tab,
    BackTab,
    Up,
    Down,
    Left,
    Right,
    Esc,
    Enter,
    Other,
}

/// A key press.
#[derive(Debug, Clone, Copy, PartialEq, Eq, Structural)]
pub struct KeyEvent {
    pub code: KeyCode,
}

impl KeyEvent {
    /// A press of `code`.
    pub fn new(code: KeyCode) -> (r: Self)
        ensures
            r.code == code,
    {
        KeyEvent { code }
    }
}

/// The action bound to a key, if any.
pub open spec fn bound_action(code: KeyCode) -> Option<UserAction> {
    match code {
        KeyCode::Tab | KeyCode::Right => Some(UserAction::CyclePane),
        KeyCode::BackTab | KeyCode::Left => Some(UserAction::PreviousPane),
        KeyCode::Up => Some(UserAction::MoveUp),
        KeyCode::Down => Some(UserAction::MoveDown),
        KeyCode::Esc => Some(UserAction::CancelPending),
        KeyCode::Char(c) => char_action(c),
        _ => None,
    }
}

/// The action bound to a character key, if any.
pub open spec fn char_action(c: char) -> Option<UserAction> {
    if c == 'q' {
        Some(UserAction::Quit)
    } else if c == 'r' {
        Some(UserAction::RefreshNow)
    } else if c == 'k' {
        Some(UserAction::MoveUp)
    } else if c == 'j' {
        Some(UserAction::MoveDown)
    } else if c == 'y' {
        Some(UserAction::ConfirmPending)
    } else if c == 'n' {
        Some(UserAction::CancelPending)
    } else if c == 'u' {
        Some(UserAction::ProjectUpdate)
    } else if c == 's' {
        Some(UserAction::ProjectSuspend)
    } else if c == 'c' {
        Some(UserAction::ProjectResume)
    } else if c == 'w' {
        Some(UserAction::ProjectNoMoreWork)
    } else if c == 'a' {
        Some(UserAction::ProjectAllowMoreWork)
    } else if c == 'x' {
        Some(UserAction::ProjectReset)
    } else if c == 'd' {
        Some(UserAction::ProjectDetach)
    } else if c == 't' {
        Some(UserAction::TaskSuspend)
    } else if c == 'g' {
        Some(UserAction::TaskResume)
    } else if c == 'b' {
        Some(UserAction::TaskAbort)
    } else if c == 'f' {
        Some(UserAction::TransferRetry)
    } else if c == '1' {
        Some(UserAction::SetRunMode(RunMode::Always))
    } else if c == '2' {
        Some(UserAction::SetRunMode(RunMode::Auto))
    } else if c == '3' {
        Some(UserAction::SetRunMode(RunMode::Never))
    } else if c == '4' {
        Some(UserAction::SetNetworkMode(RunMode::Always))
    } else if c == '5' {
        Some(UserAction::SetNetworkMode(RunMode::Auto))
    } else if c == '6' {
        Some(UserAction::SetNetworkMode(RunMode::Never))
    } else if c == '7' {
        Some(UserAction::SetGpuMode(RunMode::Always))
    } else if c == '8' {
        Some(UserAction::SetGpuMode(RunMode::Auto))
    } else if c == '9' {
        Some(UserAction::SetGpuMode(RunMode::Never))
    } else if c == 'D' {
        Some(UserAction::SaveDiagnostics)
    } else {
        None
    }
}

/// Maps a key press to the action bound to it.
pub fn map_key_to_action(key: KeyEvent) -> (r: Option<UserAction>)
    ensures
        r == bound_action(key.code),
{
    match key.code {
        KeyCode::Tab | KeyCode::Right => Some(UserAction::CyclePane),
        KeyCode::BackTab | KeyCode::Left => Some(UserAction::PreviousPane),
        KeyCode::Up => Some(UserAction::MoveUp),
        KeyCode::Down => Some(UserAction::MoveDown),
        KeyCode::Esc => Some(UserAction::CancelPending),
        KeyCode::Char(c) => match c {
            'q' => Some(UserAction::Quit),
            'r' => Some(UserAction::RefreshNow),
            'k' => Some(UserAction::MoveUp),
            'j' => Some(UserAction::MoveDown),
            'y' => Some(UserAction::ConfirmPending),
            'n' => Some(UserAction::CancelPending),
            'u' => Some(UserAction::ProjectUpdate),
            's' => Some(UserAction::ProjectSuspend),
            'c' => Some(UserAction::ProjectResume),
            'w' => Some(UserAction::ProjectNoMoreWork),
            'a' => Some(UserAction::ProjectAllowMoreWork),
            'x' => Some(UserAction::ProjectReset),
            'd' => Some(UserAction::ProjectDetach),
            't' => Some(UserAction::TaskSuspend),
            'g' => Some(UserAction::TaskResume),
            'b' => Some(UserAction::TaskAbort),
            'f' => Some(UserAction::TransferRetry),
            '1' => Some(UserAction::SetRunMode(RunMode::Always)),
            '2' => Some(UserAction::SetRunMode(RunMode::Auto)),
            '3' => Some(UserAction::SetRunMode(RunMode::Never)),
            '4' => Some(UserAction::SetNetworkMode(RunMode::Always)),
            '5' => Some(UserAction::SetNetworkMode(RunMode::Auto)),
            '6' => Some(UserAction::SetNetworkMode(RunMode::Never)),
            '7' => Some(UserAction::SetGpuMode(RunMode::Always)),
            '8' => Some(UserAction::SetGpuMode(RunMode::Auto)),
            '9' => Some(UserAction::SetGpuMode(RunMode::Never)),
            'D' => Some(UserAction::SaveDiagnostics),
            _ => None,
        },
        _ => None,
    }
}

/// Only `y` confirms a pending action, and only `n` or Esc cancels it.
pub proof fn lemma_confirmation_keys(code: KeyCode)
    ensures
        bound_action(code) == Some(UserAction::ConfirmPending) <==> code == KeyCode::Char('y'),
        bound_action(code) == Some(UserAction::CancelPending) <==> (code == KeyCode::Char('n')
            || code == KeyCode::Esc),
{
}

/// The key bindings: `q` quits, `r` refreshes, `k`/`j` and the arrows
/// move, Tab/Right and BackTab/Left change pane, `y` confirms, `n`/Esc
/// cancel, `u s c w a x d` act on the project, `t g b` on the task, `f`
/// retries the transfer, `1`-`3`, `4`-`6` and `7`-`9` set the run, network
/// and GPU modes to always/auto/never, `D` saves diagnostics; every other
/// key does nothing.
pub proof fn lemma_key_bindings(c: char)
    ensures
        bound_action(KeyCode::Char('q')) == Some(UserAction::Quit),
        bound_action(KeyCode::Char('r')) == Some(UserAction::RefreshNow),
        bound_action(KeyCode::Char('k')) == Some(UserAction::MoveUp),
        bound_action(KeyCode::Char('j')) == Some(UserAction::MoveDown),
        bound_action(KeyCode::Char('y')) == Some(UserAction::ConfirmPending),
        bound_action(KeyCode::Char('n')) == Some(UserAction::CancelPending),
        bound_action(KeyCode::Char('u')) == Some(UserAction::ProjectUpdate),
        bound_action(KeyCode::Char('s')) == Some(UserAction::ProjectSuspend),
        bound_action(KeyCode::Char('c')) == Some(UserAction::ProjectResume),
        bound_action(KeyCode::Char('w')) == Some(UserAction::ProjectNoMoreWork),
        bound_action(KeyCode::Char('a')) == Some(UserAction::ProjectAllowMoreWork),
        bound_action(KeyCode::Char('x')) == Some(UserAction::ProjectReset),
        bound_action(KeyCode::Char('d')) == Some(UserAction::ProjectDetach),
        bound_action(KeyCode::Char('t')) == Some(UserAction::TaskSuspend),
        bound_action(KeyCode::Char('g')) == Some(UserAction::TaskResume),
        bound_action(KeyCode::Char('b')) == Some(UserAction::TaskAbort),
        bound_action(KeyCode::Char('f')) == Some(UserAction::TransferRetry),
        bound_action(KeyCode::Char('1')) == Some(UserAction::SetRunMode(RunMode::Always)),
        bound_action(KeyCode::Char('2')) == Some(UserAction::SetRunMode(RunMode::Auto)),
        bound_action(KeyCode::Char('3')) == Some(UserAction::SetRunMode(RunMode::Never)),
        bound_action(KeyCode::Char('4')) == Some(UserAction::SetNetworkMode(RunMode::Always)),
        bound_action(KeyCode::Char('5')) == Some(UserAction::SetNetworkMode(RunMode::Auto)),
        bound_action(KeyCode::Char('6')) == Some(UserAction::SetNetworkMode(RunMode::Never)),
        bound_action(KeyCode::Char('7')) == Some(UserAction::SetGpuMode(RunMode::Always)),
        bound_action(KeyCode::Char('8')) == Some(UserAction::SetGpuMode(RunMode::Auto)),
        bound_action(KeyCode::Char('9')) == Some(UserAction::SetGpuMode(RunMode::Never)),
        bound_action(KeyCode::Char('D')) == Some(UserAction::SaveDiagnostics),
        bound_action(KeyCode::Tab) == Some(UserAction::CyclePane),
        bound_action(KeyCode::Right) == Some(UserAction::CyclePane),
        bound_action(KeyCode::BackTab) == Some(UserAction::PreviousPane),
        bound_action(KeyCode::Left) == Some(UserAction::PreviousPane),
        bound_action(KeyCode::Up) == Some(UserAction::MoveUp),
        bound_action(KeyCode::Down) == Some(UserAction::MoveDown),
        bound_action(KeyCode::Esc) == Some(UserAction::CancelPending),
        bound_action(KeyCode::Enter) is None,
        bound_action(KeyCode::Other) is None,
        (c != 'q' && c != 'r' && c != 'k' && c != 'j' && c != 'y' && c != 'n' && c != 'u' && c != 's' && c != 'c' && c != 'w' && c != 'a' && c != 'x' && c != 'd' && c != 't' && c != 'g' && c != 'b' && c != 'f' && c != '1' && c != '2' && c != '3' && c != '4' && c != '5' && c != '6' && c != '7' && c != '8' && c != '9' && c != 'D') ==> bound_action(KeyCode::Char(c)) is None,
{
}

} // verus!
