//! Download-and-assembly job orchestrator for geospatial terrain packages.
//!
//! The library holds the verified core of a package download server: the
//! resumable-fetch planner and its progress bookkeeping, the idempotent
//! archive-extraction checker, content-addressed cache keys, the job
//! registry, the per-job stage machine, and the pure text utilities the
//! HTTP layer feeds from.

pub mod api_types;
pub mod cache;
pub mod download;
pub mod extract;
pub mod jobs;
pub mod orchestrator;
pub mod package_client;
pub mod processing;
pub mod progress;
pub mod strutil;
