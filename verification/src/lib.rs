//! Core of an asynchronous image-validation service: the job pipeline, the
//! normalisation of validation constraints, the aggregation of check results
//! and the rules around them, stated over mathematical models and proved.
//!
//! The library does no I/O, reads no clock and waits for nothing. Its caller
//! hands in what was read and the time, and carries out what a step
//! returns.

pub mod config;
pub mod handlers;
pub mod index;
pub mod laws;
pub mod models;
pub mod queue;
pub mod record;
pub mod storage;
pub mod text;
pub mod time;
pub mod utils;
pub mod validation;
pub mod wire;

pub use config::{Config, ConfigError};
pub use models::{
    AnalysisRequest, DateTimeConstraint, DateTimeRequest, ProcessingRequest, ProcessingStatus,
    Resolution, StatusResponse, ValidationContext, ValidationRequest, ValidationResponse,
    ValidationResults,
};
pub use queue::{JobOutcome, ProcessingQueue, QueueError, QueueItem, QueueStats};
pub use record::ProcessingRecord;
pub use time::Timestamp;
