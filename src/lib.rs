//! Multi-account credential manager for the Codex CLI: the account index,
//! the secret vault boundary, the session-file switcher and the single-flight
//! login coordinator.

pub mod types;
pub mod claims;
pub mod credentials;
pub mod errors;
pub mod laws;
pub mod login;
pub mod paths;
pub mod processes;
pub mod secret_store;
pub mod snapshot;
pub mod store;
pub mod switcher;
pub mod text;
