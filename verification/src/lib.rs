//! The per-camera capture and recording pipeline: a bounded ring
//! buffer feeding a chunked recording writer with external-encoder
//! hand-off, a shared latest-frame slot for live display, a bounded
//! retry supervisor around device capture, and a reaper for stale
//! recordings. Device access, disk access and scheduling belong to the
//! caller: the library holds the decisions, each under its contract.

pub mod cleaner;
pub mod clock;
pub mod config;
pub mod frame;
pub mod misc;
pub mod text;
pub mod video;
pub mod writer;
