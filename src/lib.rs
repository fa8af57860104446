//! Periodic location recording: the sampling loop's decisions, the framing of
//! the append-only log and the reading of it back, the recent-entries view,
//! and the map of all samples with its view fit and its HTML page.

pub mod cli;
pub mod config;
pub mod sample;
pub mod log;
pub mod history;
pub mod map;
pub mod recorder;
pub mod render;
