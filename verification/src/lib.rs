//! Keeps a fleet of machines on the latest approved build of an application.
//!
//! The library holds the two halves of the update protocol. On each machine a
//! supervisor ([`CvmClientMonitor`]) finds, fetches, starts and watches the application
//! and asks the rollout authority for newer builds; the authority
//! ([`server::resolver`]) answers from its build store ([`server::app_store`]) and
//! counts what the fleet reports. The library decides and its host acts: nothing here
//! reads a file, opens a connection or waits.

pub mod bridge;
pub mod config;
pub mod errors;
pub mod http_client;
pub mod monitor;
pub mod monitor_laws;
pub mod process;
pub mod server;
pub mod text;

pub use crate::monitor::{
    start_process, strip_version_from_file_name, Action, CvmClientMonitor, Event, Phase,
    ProcessStatus, RunResult,
};
pub use crate::process::graceful_shutdown;
