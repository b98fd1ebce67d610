//! Verified core of a match telemetry and replay reporting pipeline.
//!
//! The library models the data and the decisions of the pipeline: an
//! append-only replay byte accumulator, a background integrity check of the
//! game image, a FIFO queue of game reports drained with bounded retry and
//! linear backoff, a best-effort replay uploader, and an independent channel
//! for lightweight match-status pings. All I/O (files, threads, HTTP) lives
//! outside the library; the functions here compute payloads and state
//! transitions and are verified against their contracts.

pub mod strutil;
pub mod envelope;
pub mod jsonenc;
pub mod types;
pub mod iso_check;
pub mod queue;
pub mod status;
pub mod upload;
pub mod reporter;
pub mod graphql;
pub mod playback;
pub mod config;
pub mod rank;
pub mod melee;
pub mod discord;
pub mod jukebox;
pub mod exi;
pub mod user;
