//! Ingestion, merge-selection and hardware-database aggregation logic for
//! crowd-sourced storage benchmark results.

pub mod actions;
pub mod aggregate;
pub mod artifacts;
pub mod engine;
pub mod ingest;
pub mod json;
pub mod merge;
pub mod metadata;
pub mod resctl_bench;
pub mod store;
pub mod text;
pub mod version;
