//! Which emphasis and colour each part of the screen gets. `no_color`
//! (set when the `NO_COLOR` convention applies) drops every colour but
//! keeps the emphasis.
use vstd::prelude::*;

use crate::boinc::models::TaskStatus;

verus! {

/// A foreground colour.
#[derive(Debug, Clone, Copy, PartialEq, Eq, Structural)]
pub enum Tint {
    Cyan,
    Green,
    Yellow,
    Blue,
    Magenta,
    Red,
}

/// Emphasis and colour of a piece of text; all off and no colour is the
/// terminal's default look.
#[derive(Debug, Clone, Copy, PartialEq, Eq, Structural)]
pub struct TextStyle {
    pub bold: bool,
    pub underlined: bool,
    pub reversed: bool,
    pub fg: Option<Tint>,
}

/// The terminal's default look.
pub open spec fn plain() -> TextStyle {
    TextStyle { bold: false, underlined: false, reversed: false, fg: None }
}

/// Bold text in `tint`, or in the default colour when colours are off.
pub open spec fn bold_in(tint: Tint, no_color: bool) -> TextStyle {
    TextStyle { bold: true, fg: if no_color { None } else { Some(tint) }, ..plain() }
}

/// The colour of a task status.
pub open spec fn status_tint(status: TaskStatus) -> Tint {
    match status {
        TaskStatus::Running => Tint::Green,
        TaskStatus::WaitingToRun => Tint::Yellow,
        TaskStatus::ReadyToStart => Tint::Blue,
        TaskStatus::ReadyToReport => Tint::Magenta,
    }
}

/// Colour choices of the user interface.
#[derive(Debug, Clone, Copy)]
pub struct UiTheme {
    pub no_color: bool,
}

impl UiTheme {
    /// A theme, with colours turned off when `no_color`.
    pub fn new(no_color: bool) -> (r: Self)
        ensures
            r.no_color == no_color,
    {
        UiTheme { no_color }
    }

    /// A pane's border: bold cyan when focused, default otherwise.
    pub fn pane_style(self, focused: bool) -> (r: TextStyle)
        ensures
            r == (if focused {
                bold_in(Tint::Cyan, self.no_color)
            } else {
                plain()
            }),
    {
        if focused {
            TextStyle {
                bold: true,
                underlined: false,
                reversed: false,
                fg: if self.no_color { None } else { Some(Tint::Cyan) },
            }
        } else {
            TextStyle { bold: false, underlined: false, reversed: false, fg: None }
        }
    }

    /// The selected list item: reversed and bold, in any theme.
    pub fn selected_item_style(self) -> (r: TextStyle)
        ensures
            r == (TextStyle { bold: true, reversed: true, ..plain() }),
    {
        TextStyle { bold: true, underlined: false, reversed: true, fg: None }
    }

    /// A group heading: bold, underlined, cyan.
    pub fn group_heading_style(self) -> (r: TextStyle)
        ensures
            r == (TextStyle { underlined: true, ..bold_in(Tint::Cyan, self.no_color) }),
    {
        TextStyle {
            bold: true,
            underlined: true,
            reversed: false,
            fg: if self.no_color { None } else { Some(Tint::Cyan) },
        }
    }

    /// A task status tag: bold, in the status's colour.
    pub fn task_status_style(self, status: TaskStatus) -> (r: TextStyle)
        ensures
            r == bold_in(status_tint(status), self.no_color),
    {
        let tint = match status {
            TaskStatus::Running => Tint::Green,
            TaskStatus::WaitingToRun => Tint::Yellow,
            TaskStatus::ReadyToStart => Tint::Blue,
            TaskStatus::ReadyToReport => Tint::Magenta,
        };
        TextStyle {
            bold: true,
            underlined: false,
            reversed: false,
            fg: if self.no_color { None } else { Some(tint) },
        }
    }

    /// Informational text: the default look.
    pub fn info_style(self) -> (r: TextStyle)
        ensures
            r == plain(),
    {
        TextStyle { bold: false, underlined: false, reversed: false, fg: None }
    }

    /// Warnings: bold yellow.
    pub fn warning_style(self) -> (r: TextStyle)
        ensures
            r == bold_in(Tint::Yellow, self.no_color),
    {
        TextStyle {
            bold: true,
            underlined: false,
            reversed: false,
            fg: if self.no_color { None } else { Some(Tint::Yellow) },
        }
    }

    /// Errors: bold red.
    pub fn error_style(self) -> (r: TextStyle)
        ensures
            r == bold_in(Tint::Red, self.no_color),
    {
        TextStyle {
            bold: true,
            underlined: false,
            reversed: false,
            fg: if self.no_color { None } else { Some(Tint::Red) },
        }
    }
}

/// Without colours every style keeps its emphasis and loses its colour.
pub proof fn lemma_no_color_means_no_tint(tint: Tint)
    ensures
        bold_in(tint, true).fg is None,
        bold_in(tint, true).bold,
{
}

} // verus!
