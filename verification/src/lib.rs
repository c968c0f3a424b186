//! The core of a two-worker keep-alive launcher, together with the record
//! types and page models of the application it keeps running.
//!
//! Every decision the launcher takes is a function on plain values with a
//! contract: whether another instance is active, where the workers and their
//! logs live, what to do after a worker stops, and in which order the
//! start-up checks run.
pub mod db;
pub mod instance_guard;
pub mod log_sink;
pub mod models;
pub mod orchestrator;
pub mod paths;
pub mod supervisor;
pub mod templates;
pub mod text;
