//! A remote-execution engine core: host and credential resolution, a retry
//! supervisor driven by error classification, a bounded-concurrency limiter
//! model, per-host result records and run summaries, and the command builders
//! for the operations the tool ships with.
pub mod auth;
pub mod config;
pub mod errors;
pub mod host;
pub mod limiter;
pub mod modules;
pub mod report;
pub mod retry;
pub mod session;
pub mod text;
