//! Verified core of a per-streamer song-request service.
//!
//! Every piece of durable state (current song, request queue, play history,
//! usage telemetry, banner messages, artwork cache) lives in a store type
//! with a mathematical view, and every operation carries a contract that
//! pins down its effect on that view.  Transport concerns (HTTP, JSON,
//! the artwork origin call) live outside this crate and hand plain values
//! in and out.

pub mod canvas;
pub mod error;
pub mod history;
pub mod identity;
pub mod motd;
pub mod queue;
pub mod service;
pub mod song;
pub mod strutil;
pub mod usage;
