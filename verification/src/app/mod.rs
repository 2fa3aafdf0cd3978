//! Application logic: user actions, reconnect policy and the view state
//! machine driven by the terminal front end.
pub mod actions;
pub mod diagnostics;
pub mod reconnect;
pub mod state;
