//! Uptime monitoring for a single host: the decisions of the monitoring and
//! alerting loop, with their contracts.
//!
//! The probes themselves (name resolution, ping, HTTP, public address lookup)
//! and the chat connection are performed by the caller. This crate decides what
//! to probe next, how the outcomes read as a status text, whether that text is
//! worth an alert, who receives it, and who is subscribed.

pub mod command;
pub mod dedup;
pub mod monitor;
pub mod registry;
pub mod run;
pub mod status;
pub mod text;
