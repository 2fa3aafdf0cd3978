//! Verified core of a keyboard-first BOINC GUI RPC client.
//!
//! The crate holds the protocol framing and reply parsing, the project
//! template registry, preset profiles, bootstrap planning, the RPC session
//! state machine and the UI-independent application logic.
pub mod app;
pub mod boinc;
pub mod error;
pub mod text;
pub mod ui;
