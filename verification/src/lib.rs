//! The decision logic of a Geneva Ingestion Gateway (GIG) uploader.
pub mod client;
pub mod error;
pub mod headers;
pub mod otlp;
pub mod payload;
pub mod raw_batch;
pub mod reply;
pub mod retry;
pub mod text;
pub mod time;
pub mod uploader;
pub mod uri;
