//! Batches and blobs.
use std::sync::Arc;
use vstd::prelude::*;

verus! {

/// What the gateway is told of a batch besides its bytes.
#[derive(Debug)]
pub struct BatchMetadata {
    /// The earliest time of an event, in nanoseconds since the Unix epoch; zero if none has one.
    pub start_time: u64,
    /// The latest time of an event, in nanoseconds since the Unix epoch; zero if none has one.
    pub end_time: u64,
    /// The digests of the schemas, in lowercase hexadecimal.
    pub schema_ids: String,
}

impl Clone for BatchMetadata {
    fn clone(&self) -> (r: BatchMetadata)
        ensures
            r == *self,
    {
        BatchMetadata {
            start_time: self.start_time,
            end_time: self.end_time,
            schema_ids: self.schema_ids.clone(),
        }
    }
}

/// Public batch type (already LZ4 chunked compressed).
#[derive(Debug, Clone)]
pub struct EncodedBatch {
    pub event_name: String,
    pub data: Vec<u8>,
    pub metadata: BatchMetadata,
    pub row_count: usize,
}

/// A pre-serialized row for the raw batch encoding path, for callers that provide field values
/// directly.
#[derive(Debug, Clone)]
pub struct RawRow {
    /// Timestamp in nanoseconds since Unix epoch
    pub timestamp_ns: u64,
    /// Pre-serialized Bond Simple Binary row data (field values in schema order)
    pub row_data: Vec<u8>,
}

/// The fields that every event carries.
#[derive(Debug)]
pub struct MetadataFields {
    pub env_name: String,
    pub env_ver: String,
    pub tenant: String,
    pub role: String,
    pub role_instance: String,
    pub namespace: String,
    pub event_version: String,
}

impl Clone for MetadataFields {
    fn clone(&self) -> (r: MetadataFields)
        ensures
            r == *self,
    {
        MetadataFields {
            env_name: self.env_name.clone(),
            env_ver: self.env_ver.clone(),
            tenant: self.tenant.clone(),
            role: self.role.clone(),
            role_instance: self.role_instance.clone(),
            namespace: self.namespace.clone(),
            event_version: self.event_version.clone(),
        }
    }
}

/// `Arc::clone` gives another handle to the same value.
#[verifier::external_body]
pub(crate) fn share<T>(shared: &Arc<T>) -> (r: Arc<T>)
    ensures
        r == *shared,
{
    Arc::clone(shared)
}

/// A schema in a blob: its number, its digest, its encoding and the fields that it describes.
pub struct CentralSchemaEntry<'a, F> {
    pub id: u64,
    pub md5: [u8; 16],
    pub schema: Vec<u8>,
    pub fields: &'a [F],
}

/// An event in a blob: the number of its schema, its level, its name and its row.
pub struct CentralEventEntry {
    pub schema_id: u64,
    pub level: u8,
    pub event_name: Arc<String>,
    pub row: Vec<u8>,
}

/// A blob: the schemas and events of one batch.
pub struct CentralBlob<'a, F> {
    pub version: u32,
    pub format: u32,
    pub metadata: String,
    pub schemas: Vec<CentralSchemaEntry<'a, F>>,
    pub events: Vec<CentralEventEntry>,
}

} // verus!
