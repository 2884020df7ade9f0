//! Statistical summaries of storage telemetry.
//!
//! Raw records about volumes, pools, replicas and nodes are flattened into
//! samples of unsigned integers, condensed into counts, extrema and
//! percentiles, and assembled into one report per polling cycle.

pub mod api_models;
pub mod assembler;
pub mod metrics;
pub mod report_models;
pub mod sample;
pub mod stats;
pub mod summary;
