//! Lead enrichment pipeline: doubt scoring, stage selection under a budget,
//! signal generation, the enrichment stages' decisions and the job queue's
//! retry rules.

pub mod ids;
pub mod models;
pub mod budget;
pub mod doubt;
pub mod signals;
pub mod config;
pub mod error;
pub mod stages;
pub mod worker;
pub mod random;
pub mod text;
pub mod tasks;
pub mod jobs;
pub mod pipeline;
pub mod ingest;
