//! Verified core of a terminal dashboard for environmental sensor readings.
//!
//! A background poller fetches a JSON array of readings over HTTP, decodes it,
//! and commits the result into a shared snapshot; a render pass reads that
//! snapshot once per frame, highlights the rows that arrived with the latest
//! growth of the list, shows a countdown, and raises a manual-refresh signal
//! when the countdown expires. This crate holds the decision and data logic of
//! that loop — the commit protocol, the refresh-signal handoff, the highlight
//! and countdown arithmetic, the JSON decoding and the timestamp filter — with
//! machine-checked contracts. The I/O around it (HTTP, terminal, clock) lives
//! in the binary that embeds the crate.

pub mod api;
pub mod datetime;
pub mod decimal;
pub mod decode;
pub mod json;
pub mod poller;
pub mod render;
pub mod signal;
pub mod state;
