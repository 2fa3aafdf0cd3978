//! Text of the list panes and the client summary.
pub mod projects;
pub mod status;
pub mod tasks;
