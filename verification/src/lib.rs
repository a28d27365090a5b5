//! Periodic export of a process's own metrics in the Prometheus remote-write
//! format: the configuration and its validation, the choice between in-process
//! and network delivery, the outbound request, and the tick-by-tick decisions
//! of the export loop.
//!
//! The crate holds the decisions only. Timers, the metric registry, the
//! protobuf encoder and the HTTP client belong to the hosting process, which
//! hands plain values in and performs the actions that come back.

pub mod delivery;
pub mod error;
pub mod header;
pub mod mode;
pub mod option;
pub mod outside;
pub mod schedule;
pub mod task;

pub use option::ExportMetricsOption;
pub use schedule::{write_system_metric_by_handler, write_system_metric_by_network};
pub use task::ExportMetricsTask;
