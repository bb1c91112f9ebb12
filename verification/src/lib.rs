//! Verified core of the grite issue tracker: daemon lifecycle state
//! machines, benchmark metrics, command routing decisions, health-check
//! reporting and the small text formats the tools exchange.

pub mod error;
pub mod state;
pub mod text;
pub mod metrics;
pub mod ui;
pub mod codec;
pub mod bench;
pub mod cli;
pub mod ipc;
pub mod router;
pub mod numparse;
pub mod daemon;
pub mod sync;
pub mod doctor;
pub mod export;
pub mod setup;
pub mod output;
pub mod locks;
pub mod resolve;
pub mod indexing;
pub mod daemon_cli;
pub mod maintenance;
pub mod persist;
