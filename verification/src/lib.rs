//! Process metrics for a proving host: a fixed catalog of counters, latency
//! histograms and an in-flight gauge, addressed by label values derived from
//! block ids, guest kinds and outcomes.

pub mod catalog;
pub mod instruments;
pub mod labels;
pub mod laws;
pub mod metrics;
pub mod observations;
