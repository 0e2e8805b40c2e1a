//! A log streaming core: records built from free-text lines, a configurable
//! filter, a bounded broadcast hub with per-subscriber cursors, and metrics.
//!
//! The pipeline runs from a producer's line to the dashboards: a line becomes
//! a [`LogRecord`]; the [`LogFilter`] of a [`LogStreamer`] decides whether it
//! passes; a record that passes is counted by the [`MetricsCollector`] and
//! published through the [`BroadcastHub`]; each [`DashboardSession`] reads the
//! hub through a cursor of its own.
//!
//! Everything here works on plain values and is single-threaded. Sockets,
//! tasks and the locks around the shared hub and metrics belong to the
//! program built on top.

pub mod fields;
pub mod filter;
pub mod hub;
pub mod metrics;
pub mod record;
pub mod stream;
pub mod text;
pub mod websocket;

pub use filter::{FilterError, LogFilter};
pub use hub::{BroadcastHub, Cursor, Delivery};
pub use metrics::{MetricsCollector, MetricsSnapshot};
pub use record::{LogLevel, LogRecord};
pub use stream::LogStreamer;
pub use websocket::DashboardSession;
