//! A bridge between a publish/subscribe broker and a downstream message sink.
//!
//! The crate holds the decisions of the bridge: which topics are tracked and
//! when an upstream connection is needed, what happens to each inbound
//! message, when the downstream sink may be tried, and the windowed metrics
//! that are reported about all of it. Every function is verified against the
//! contract that stands above its body, but for two that are trusted: the
//! one that has `serde_json` write bytes as JSON text, and the one that has
//! `chrono` write a point in time as text. Network traffic, clocks and timers
//! are left to the program that drives these functions.

pub mod ring_buffer;
pub mod windowed;
pub mod message_metrics;
pub mod producer;
pub mod topic_set;
pub mod subscriber;
pub mod processor;
pub mod config;
pub mod models;
pub mod api;
