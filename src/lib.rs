//! Supervision of a companion server process ("sidecar"): endpoint and path
//! resolution, command-line construction, bounded log capture and the
//! lifecycle state machine that decides when to spawn, wait, fail or stop.
pub mod endpoint;
pub mod interface;
pub mod lifecycle;
pub mod log_sink;
pub mod repo_path;
pub mod shell;
