//! Mirrored-asset downloader core: URL resolution, download-job planning,
//! the per-asset transfer state machine, and progress accounting.
//!
//! The library is the decision-making part of a repository mirror: it builds
//! per-asset download URLs from two base endpoints, plans one download job
//! per listed asset, tracks each transfer's state and byte count, and
//! aggregates the outcomes of a run. The surrounding I/O (HTTP transfer,
//! the filesystem, terminal rendering, process invocation) lives outside it
//! and hands it plain values.

pub mod error;
pub mod listing;
pub mod orchestrator;
pub mod progress;
pub mod repo;
pub mod resolver;
pub mod task;
pub mod text;
