//! A telemetry relay core: a serializer that rebuilds Prometheus exposition
//! text from decoded metric groups, batching state for the pipeline stages,
//! and the retry policy of the scrape stage.
pub mod agent;
pub mod error;
pub mod formatter;
pub mod labels;
pub mod model;
pub mod pipeline;
pub mod remote_write;
pub mod scraper;
pub mod text;
