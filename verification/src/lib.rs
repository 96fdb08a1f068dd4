//! Batch image conversion: a format registry, a codec adapter and a
//! bounded-concurrency batch scheduler.
pub mod batch;
pub mod channel;
pub mod codec;
pub mod converter;
pub mod error;
pub mod laws;
pub mod model;
pub mod progress;
pub mod scheduler;
pub mod selection;
