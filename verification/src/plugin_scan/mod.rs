//! Scan of the installed plugins by disposable worker processes.
//!
//! Plugins are found in the agent's own process, which reads data only. They are loaded in
//! a worker: if one brings its worker down, that plugin is put on the blocklist and a new
//! worker takes the rest.

pub mod cache;
pub mod coordinator;
pub mod discovery;
pub mod full_scan;
pub mod protocol;
pub mod session;
pub mod worker;
