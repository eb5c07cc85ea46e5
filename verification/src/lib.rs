//! Per-zone event logging: each monitored zone gets a worker that enriches
//! raw firewall events with the zone's identity metadata, frames them as
//! newline-delimited JSON, and buffers them for its own log file.
//!
//! The crate verifies the logic of that pipeline: the identity table, the
//! JSON line framing, the worker's buffering state machine, and the
//! supervisor handle over the two channels. The surrounding process (thread
//! per worker, the select loop, and the file writes) is ordinary Rust built
//! on top of these contracts.

pub mod event;
pub mod identity;
pub mod json;
pub mod laws;
pub mod logger;
pub mod worker;

pub use event::EventField;
pub use event::EventRecord;
pub use identity::IdentityRecord;
pub use identity::IdentityTable;
pub use identity::Zonedid;
pub use logger::Logger;
pub use logger::SendError;
pub use logger::WorkerTask;
pub use logger::start_logger;
pub use worker::LoggerSignal;
pub use worker::Worker;
pub use worker::WorkerState;
