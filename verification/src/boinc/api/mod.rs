//! Read/write request builders and reply mapping for the BOINC GUI RPC API.
pub mod read;
pub mod write;
