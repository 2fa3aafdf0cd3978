//! BOINC integration layer: protocol helpers, templates, profiles and models.
pub mod api;
pub mod bootstrap;
pub mod models;
pub mod profiles;
pub mod protocol;
pub mod rpc_client;
pub mod templates;
