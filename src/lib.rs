//! Health check for a cable modem: log in to its web administration pages,
//! read the connection-status page and report the startup procedure it shows.
//!
//! The library decides; its caller does the I/O. `HealthCheck::start` and
//! `HealthCheck::on_reply` hand out each request to send and take back what came
//! back, until the check finishes with a `StartupProcedure` or a `CheckError`.

pub mod config;
pub mod fetch;
pub mod page;
pub mod retry;
pub mod session;

pub use config::{ConfigError, ModemConfig, TokenTransport};
pub use fetch::{attempt_begin, attempt_step, AttemptStep, FetchError, Reply, Request, Stage};
pub use page::{
    map_status_page, procedure_from_cells, status_entry, ExtractionError, StartupProcedure,
    StatusEntry,
};
pub use retry::{RetryController, Verdict, DEFAULT_MAX_RETRIES};
pub use session::{CheckError, HealthCheck, Progress};
