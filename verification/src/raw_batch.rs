//! Batches of rows that the caller has serialized, all of one schema.
use std::sync::Arc;
use vstd::prelude::*;
use vstd::string::StringExecFns;

use crate::payload::{
    share, BatchMetadata, CentralBlob, CentralEventEntry, CentralSchemaEntry, EncodedBatch, RawRow,
};
use crate::text::{lemma_hex_spells_bytes, lower_hex, lower_hex_string, spells_bytes};

verus! {

/// The name of the record that the schema of a raw batch describes.
pub const RAW_RECORD_NAME: &'static str = "CustomRecord";

/// The number of the one schema of a raw batch.
pub const RAW_SCHEMA_ID: u64 = 1;

/// The version of a blob.
pub const BLOB_VERSION: u32 = 1;

/// The format of a blob.
pub const BLOB_FORMAT: u32 = 2;

/// The MD5 digest of a run of bytes.
pub uninterp spec fn md5_digest(bytes: Seq<u8>) -> Seq<u8>;

/// `md5::compute`: the 16 bytes of the MD5 digest, which depends on the bytes alone. How MD5
/// reckons it stays with the crate.
#[verifier::external_body]
fn md5_of(bytes: &[u8]) -> (r: [u8; 16])
    ensures
        r@ == md5_digest(bytes@),
{
    md5::compute(bytes).0
}

/// The row has a time: one that is neither zero, which stands for none, nor the very last that
/// there is.
pub open spec fn is_timed(row: RawRow) -> bool {
    0 < row.timestamp_ns < u64::MAX
}

/// `t` is the start of the rows: the earliest time of a row, or zero if no row has one.
pub open spec fn is_start_time(rows: Seq<RawRow>, t: u64) -> bool {
    if exists|i: int| 0 <= i < rows.len() && is_timed(#[trigger] rows[i]) {
        &&& exists|i: int|
            0 <= i < rows.len() && is_timed(#[trigger] rows[i]) && rows[i].timestamp_ns == t
        &&& forall|i: int|
            0 <= i < rows.len() && (#[trigger] rows[i]).timestamp_ns != 0 ==> t
                <= rows[i].timestamp_ns
    } else {
        t == 0
    }
}

/// `t` is the end of the rows: the latest timestamp of a row, or zero if no row has one.
pub open spec fn is_end_time(rows: Seq<RawRow>, t: u64) -> bool {
    &&& t == 0 || exists|i: int| 0 <= i < rows.len() && (#[trigger] rows[i]).timestamp_ns == t
    &&& forall|i: int| 0 <= i < rows.len() ==> (#[trigger] rows[i]).timestamp_ns <= t
}

/// Finds the start and the end of the rows.
pub fn time_range(rows: &[RawRow]) -> (r: (u64, u64))
    ensures
        is_start_time(rows@, r.0),
        is_end_time(rows@, r.1),
{
    let mut start_time: u64 = u64::MAX;
    let mut end_time: u64 = 0;
    let mut k: usize = 0;
    while k < rows.len()
        invariant
            k <= rows.len(),
            start_time == u64::MAX || exists|i: int|
                0 <= i < k && is_timed(#[trigger] rows@[i]) && rows@[i].timestamp_ns == start_time,
            forall|i: int|
                0 <= i < k && (#[trigger] rows@[i]).timestamp_ns != 0 ==> start_time
                    <= rows@[i].timestamp_ns,
            end_time == 0 || exists|i: int|
                0 <= i < k && (#[trigger] rows@[i]).timestamp_ns == end_time,
            forall|i: int| 0 <= i < k ==> (#[trigger] rows@[i]).timestamp_ns <= end_time,
        decreases rows.len() - k,
    {
        let t: u64 = rows[k].timestamp_ns;
        assert(rows@[k as int].timestamp_ns == t);
        if t != 0 {
            if t < start_time {
                start_time = t;
                assert(is_timed(rows@[k as int]));
            }
            if t > end_time {
                end_time = t;
            }
        }
        k += 1;
    }
    if start_time == u64::MAX {
        (0, end_time)
    } else {
        (start_time, end_time)
    }
}

/// The event stands for the row.
pub open spec fn is_raw_event(
    event: CentralEventEntry,
    level: u8,
    event_name: Seq<char>,
    row: RawRow,
) -> bool {
    &&& event.schema_id == RAW_SCHEMA_ID
    &&& event.level == level
    &&& event.event_name@ == event_name
    &&& event.row@ == row.row_data@
}

/// The blob is the one for the rows: the one schema, and an event for each row, in order.
pub open spec fn is_raw_blob<F>(
    blob: CentralBlob<'_, F>,
    fields: Seq<F>,
    schema: Seq<u8>,
    metadata: Seq<char>,
    event_name: Seq<char>,
    level: u8,
    rows: Seq<RawRow>,
) -> bool {
    &&& blob.version == BLOB_VERSION
    &&& blob.format == BLOB_FORMAT
    &&& blob.metadata@ == metadata
    &&& blob.schemas@.len() == 1
    &&& blob.schemas@[0].id == RAW_SCHEMA_ID
    &&& blob.schemas@[0].md5@ == md5_digest(schema)
    &&& blob.schemas@[0].schema@ == schema
    &&& blob.schemas@[0].fields@ == fields
    &&& blob.events@.len() == rows.len()
    &&& forall|i: int|
        0 <= i < rows.len() ==> is_raw_event(
            #[trigger] blob.events@[i],
            level,
            event_name,
            rows[i],
        )
}

/// Builds the blob for some rows.
pub fn raw_blob<'a, F>(
    fields: &'a [F],
    schema: Vec<u8>,
    metadata: String,
    event_name: &str,
    level: u8,
    rows: &[RawRow],
) -> (r: CentralBlob<'a, F>)
    ensures
        is_raw_blob(r, fields@, schema@, metadata@, event_name@, level, rows@),
{
    let md5 = md5_of(schema.as_slice());
    let schema_entry = CentralSchemaEntry { id: RAW_SCHEMA_ID, md5, schema, fields };
    let shared_name = Arc::new(event_name.to_owned());
    let mut events: Vec<CentralEventEntry> = Vec::new();
    let mut k: usize = 0;
    while k < rows.len()
        invariant
            k <= rows.len(),
            events@.len() == k,
            shared_name@ == event_name@,
            forall|i: int|
                0 <= i < k ==> is_raw_event(
                    #[trigger] events@[i],
                    level,
                    event_name@,
                    rows@[i],
                ),
        decreases rows.len() - k,
    {
        let row = rows[k].row_data.clone();
        assert(row@ =~= rows@[k as int].row_data@);
        events.push(
            CentralEventEntry {
                schema_id: RAW_SCHEMA_ID,
                level,
                event_name: share(&shared_name),
                row,
            },
        );
        k += 1;
    }
    let mut schemas: Vec<CentralSchemaEntry<'a, F>> = Vec::new();
    schemas.push(schema_entry);
    CentralBlob { version: BLOB_VERSION, format: BLOB_FORMAT, metadata, schemas, events }
}

/// What becomes of the compressed blob: one batch that holds it, with the digest of the schema and
/// the time range and number of the rows; or the text of the compressor's error.
pub open spec fn is_raw_outcome(
    event_name: Seq<char>,
    digest: Seq<u8>,
    rows: Seq<RawRow>,
    compressed: Result<Vec<u8>, String>,
    r: Result<Vec<EncodedBatch>, String>,
) -> bool {
    match compressed {
        Ok(data) => {
            &&& r matches Ok(batches)
            &&& batches@.len() == 1
            &&& batches@[0].event_name@ == event_name
            &&& batches@[0].data == data
            &&& batches@[0].metadata.schema_ids@ == lower_hex(digest)
            &&& is_start_time(rows, batches@[0].metadata.start_time)
            &&& is_end_time(rows, batches@[0].metadata.end_time)
            &&& batches@[0].row_count == rows.len()
        },
        Err(e) => r matches Err(m) && m@ == "compression failed: "@ + e@,
    }
}

/// Makes the batch for the compressed blob of some rows.
pub fn raw_outcome(
    event_name: &str,
    digest: &[u8; 16],
    rows: &[RawRow],
    compressed: Result<Vec<u8>, String>,
) -> (r: Result<Vec<EncodedBatch>, String>)
    ensures
        is_raw_outcome(event_name@, digest@, rows@, compressed, r),
{
    match compressed {
        Ok(data) => {
            let (start_time, end_time) = time_range(rows);
            let mut batches: Vec<EncodedBatch> = Vec::new();
            batches.push(
                EncodedBatch {
                    event_name: event_name.to_owned(),
                    data,
                    metadata: BatchMetadata {
                        start_time,
                        end_time,
                        schema_ids: lower_hex_string(digest.as_slice()),
                    },
                    row_count: rows.len(),
                },
            );
            Ok(batches)
        },
        Err(e) => Err("compression failed: ".to_owned().concat(e.as_str())),
    }
}

/// A batch has one start and one end.
pub proof fn law_time_range_is_unique(rows: Seq<RawRow>, a: u64, b: u64)
    ensures
        is_start_time(rows, a) && is_start_time(rows, b) ==> a == b,
        is_end_time(rows, a) && is_end_time(rows, b) ==> a == b,
{
}

/// A batch does not end before it starts, and every row with a timestamp lies between the two.
pub proof fn law_time_range_covers_the_rows(rows: Seq<RawRow>, start: u64, end: u64)
    requires
        is_start_time(rows, start),
        is_end_time(rows, end),
    ensures
        start <= end,
        forall|i: int|
            0 <= i < rows.len() && (#[trigger] rows[i]).timestamp_ns != 0 ==> start
                <= rows[i].timestamp_ns <= end,
{
}

/// Rows without a timestamp leave the time range as it is.
pub proof fn law_untimed_rows_leave_the_range(rows: Seq<RawRow>, row: RawRow, start: u64, end: u64)
    requires
        row.timestamp_ns == 0,
        is_start_time(rows, start),
        is_end_time(rows, end),
    ensures
        is_start_time(rows.push(row), start),
        is_end_time(rows.push(row), end),
{
    let more = rows.push(row);
    assert(forall|i: int| 0 <= i < rows.len() ==> #[trigger] more[i] == rows[i]);
    if exists|i: int| 0 <= i < rows.len() && is_timed(#[trigger] rows[i]) {
        let i = choose|i: int|
            0 <= i < rows.len() && is_timed(#[trigger] rows[i]) && rows[i].timestamp_ns == start;
        assert(is_timed(more[i]));
    }
    if end != 0 {
        let i = choose|i: int| 0 <= i < rows.len() && (#[trigger] rows[i]).timestamp_ns == end;
        assert(more[i].timestamp_ns == end);
    }
}

/// The timestamps of some rows, in order.
pub open spec fn timestamps(rows: Seq<RawRow>) -> Seq<u64> {
    rows.map_values(|row: RawRow| row.timestamp_ns)
}

/// The same timestamps, each as often, in whatever order.
pub open spec fn same_timestamps(rows: Seq<RawRow>, other: Seq<RawRow>) -> bool {
    timestamps(rows).to_multiset() == timestamps(other).to_multiset()
}

/// Where `other` has the timestamps of `rows`, each row has one of `other` with its timestamp.
proof fn lemma_row_with_the_same_timestamp(rows: Seq<RawRow>, other: Seq<RawRow>, i: int) -> (j:
    int)
    requires
        same_timestamps(rows, other),
        0 <= i < rows.len(),
    ensures
        0 <= j < other.len(),
        other[j].timestamp_ns == rows[i].timestamp_ns,
{
    broadcast use vstd::seq_lib::group_to_multiset_ensures;

    let t = rows[i].timestamp_ns;
    assert(timestamps(rows)[i] == t);
    assert(timestamps(rows).to_multiset().count(t) > 0);
    assert(timestamps(other).contains(t));
    let j = choose|j: int| 0 <= j < timestamps(other).len() && timestamps(other)[j] == t;
    j
}

/// A start and an end of `rows` are ones of `other`, where `other` has the timestamps of `rows`.
proof fn lemma_time_range_carries_over(rows: Seq<RawRow>, other: Seq<RawRow>, t: u64)
    requires
        same_timestamps(rows, other),
    ensures
        is_start_time(rows, t) ==> is_start_time(other, t),
        is_end_time(rows, t) ==> is_end_time(other, t),
{
    assert forall|i: int| 0 <= i < other.len() implies exists|j: int|
        0 <= j < rows.len() && (#[trigger] rows[j]).timestamp_ns == (
        #[trigger] other[i]).timestamp_ns by {
        let j = lemma_row_with_the_same_timestamp(other, rows, i);
        assert(rows[j].timestamp_ns == other[i].timestamp_ns);
    }
    if is_start_time(rows, t) && exists|i: int| 0 <= i < rows.len() && is_timed(#[trigger] rows[i]) {
        let i = choose|i: int|
            0 <= i < rows.len() && is_timed(#[trigger] rows[i]) && rows[i].timestamp_ns == t;
        let j = lemma_row_with_the_same_timestamp(rows, other, i);
        assert(is_timed(other[j]));
    }
    if is_end_time(rows, t) && t != 0 {
        let i = choose|i: int| 0 <= i < rows.len() && (#[trigger] rows[i]).timestamp_ns == t;
        let j = lemma_row_with_the_same_timestamp(rows, other, i);
        assert(other[j].timestamp_ns == t);
    }
}

/// The time range of a batch depends on the timestamps of its rows alone, and not on their order.
pub proof fn law_time_range_depends_on_the_timestamps_alone(
    rows: Seq<RawRow>,
    other: Seq<RawRow>,
    t: u64,
)
    requires
        same_timestamps(rows, other),
    ensures
        is_start_time(rows, t) == is_start_time(other, t),
        is_end_time(rows, t) == is_end_time(other, t),
        rows.len() == other.len(),
{
    lemma_time_range_carries_over(rows, other, t);
    lemma_time_range_carries_over(other, rows, t);
    vstd::seq_lib::to_multiset_len(timestamps(rows));
    vstd::seq_lib::to_multiset_len(timestamps(other));
}

/// The two points are the range of the rows' timestamps, where zero stands for none. No timestamp
/// lies outside the range, and each end is a timestamp of a row. The very last point that there is
/// counts as an end, but not as a start.
pub open spec fn spans_the_timestamps(rows: Seq<RawRow>, start: u64, end: u64) -> bool {
    &&& forall|i: int|
        0 <= i < rows.len() && (#[trigger] rows[i]).timestamp_ns != 0 ==> start
            <= rows[i].timestamp_ns <= end
    &&& start != 0 ==> exists|i: int|
        0 <= i < rows.len() && (#[trigger] rows[i]).timestamp_ns == start
    &&& end != 0 ==> exists|i: int|
        0 <= i < rows.len() && (#[trigger] rows[i]).timestamp_ns == end
    &&& start < 0xffff_ffff_ffff_ffff
    &&& start == 0 ==> forall|i: int|
        0 <= i < rows.len() ==> ((#[trigger] rows[i]).timestamp_ns == 0 || rows[i].timestamp_ns
            == 0xffff_ffff_ffff_ffff)
}

proof fn lemma_time_range(rows: Seq<RawRow>, start: u64, end: u64)
    requires
        is_start_time(rows, start),
        is_end_time(rows, end),
    ensures
        spans_the_timestamps(rows, start, end),
{
    assert forall|i: int| 0 <= i < rows.len() && start == 0 implies ((
    #[trigger] rows[i]).timestamp_ns == 0 || rows[i].timestamp_ns == 0xffff_ffff_ffff_ffff) by {
        if is_timed(rows[i]) {
            let j = choose|j: int|
                0 <= j < rows.len() && is_timed(#[trigger] rows[j]) && rows[j].timestamp_ns
                    == start;
            assert(is_timed(rows[j]));
        }
    }
}

/// The range that is found for some rows spans their timestamps.
pub proof fn law_time_range_spans_the_timestamps(rows: &[RawRow], r: (u64, u64))
    requires
        call_ensures(time_range, (rows,), r),
    ensures
        spans_the_timestamps(rows@, r.0, r.1),
{
    lemma_time_range(rows@, r.0, r.1);
}

/// The blob holds the rows as they are: an event for each row, in order, with every byte of the
/// row's data in its place, under the given name and level.
pub open spec fn carries_the_rows<F>(
    blob: CentralBlob<'_, F>,
    event_name: Seq<char>,
    level: u8,
    rows: Seq<RawRow>,
) -> bool {
    &&& blob.events@.len() == rows.len()
    &&& forall|i: int|
        0 <= i < rows.len() ==> {
            &&& (#[trigger] blob.events@[i]).row@.len() == rows[i].row_data@.len()
            &&& blob.events@[i].level == level
            &&& blob.events@[i].event_name@ == event_name
        }
    &&& forall|i: int, j: int|
        0 <= i < rows.len() && 0 <= j < rows[i].row_data@.len() ==> (
        #[trigger] blob.events@[i].row@[j]) == rows[i].row_data@[j]
}

/// The blob has the one schema that its events name, with its digest and its fields, behind the
/// given head.
pub open spec fn has_the_one_schema<F>(
    blob: CentralBlob<'_, F>,
    fields: Seq<F>,
    schema: Seq<u8>,
    metadata: Seq<char>,
) -> bool {
    &&& blob.version == 1
    &&& blob.format == 2
    &&& blob.metadata@ == metadata
    &&& blob.schemas@.len() == 1
    &&& blob.schemas@[0].id == 1
    &&& blob.schemas@[0].schema@ == schema
    &&& blob.schemas@[0].md5@ == md5_digest(schema)
    &&& blob.schemas@[0].fields@ == fields
    &&& forall|i: int| 0 <= i < blob.events@.len() ==> (#[trigger] blob.events@[i]).schema_id == 1
}

/// A blob for some rows has the one schema and carries the rows.
pub proof fn lemma_raw_blob_carries_the_rows<F>(
    blob: CentralBlob<'_, F>,
    fields: Seq<F>,
    schema: Seq<u8>,
    metadata: Seq<char>,
    event_name: Seq<char>,
    level: u8,
    rows: Seq<RawRow>,
)
    requires
        is_raw_blob(blob, fields, schema, metadata, event_name, level, rows),
    ensures
        has_the_one_schema(blob, fields, schema, metadata),
        carries_the_rows(blob, event_name, level, rows),
{
    assert forall|i: int| 0 <= i < rows.len() implies {
        &&& (#[trigger] blob.events@[i]).row@.len() == rows[i].row_data@.len()
        &&& blob.events@[i].level == level
        &&& blob.events@[i].event_name@ == event_name
    } by {
        assert(is_raw_event(blob.events@[i], level, event_name, rows[i]));
    }
    assert forall|i: int, j: int|
        0 <= i < rows.len() && 0 <= j < rows[i].row_data@.len() implies (
    #[trigger] blob.events@[i].row@[j]) == rows[i].row_data@[j] by {
        assert(is_raw_event(blob.events@[i], level, event_name, rows[i]));
    }
    assert forall|i: int| 0 <= i < blob.events@.len() implies (
    #[trigger] blob.events@[i]).schema_id == 1 by {
        assert(is_raw_event(blob.events@[i], level, event_name, rows[i]));
    }
}

/// Row data is carried unchanged: the blob for some rows has an event for each, in order, whose
/// data has the length of the row's and the same byte at every place. Level, name and schema are
/// the given ones in every event.
pub proof fn law_row_data_is_carried_unchanged<'a, F>(
    fields: &'a [F],
    schema: Vec<u8>,
    metadata: String,
    event_name: &str,
    level: u8,
    rows: &[RawRow],
    r: CentralBlob<'a, F>,
)
    requires
        call_ensures(raw_blob::<F>, (fields, schema, metadata, event_name, level, rows), r),
    ensures
        r.events@.len() == rows@.len(),
        forall|i: int|
            0 <= i < rows@.len() ==> (#[trigger] r.events@[i]).row@.len()
                == rows@[i].row_data@.len(),
        forall|i: int, j: int|
            0 <= i < rows@.len() && 0 <= j < rows@[i].row_data@.len() ==> (
            #[trigger] r.events@[i].row@[j]) == rows@[i].row_data@[j],
        forall|i: int| 0 <= i < rows@.len() ==> (#[trigger] r.events@[i]).level == level,
        forall|i: int|
            0 <= i < rows@.len() ==> (#[trigger] r.events@[i]).event_name@ == event_name@,
        has_the_one_schema(r, fields@, schema@, metadata@),
{
    lemma_raw_blob_carries_the_rows(
        r,
        fields@,
        schema@,
        metadata@,
        event_name@,
        level,
        rows@,
    );
    assert forall|i: int| 0 <= i < rows@.len() implies (#[trigger] r.events@[i]).row@.len()
        == rows@[i].row_data@.len() by {}
}

/// The result for a compressed blob: its bytes in one batch, which names the event, the digest of
/// the schema, the range and the number of the rows; or the compressor's error.
pub open spec fn batch_tells_the_rows(
    event_name: Seq<char>,
    digest: Seq<u8>,
    rows: Seq<RawRow>,
    compressed: Result<Vec<u8>, String>,
    r: Result<Vec<EncodedBatch>, String>,
) -> bool {
    &&& compressed is Ok <==> r is Ok
    &&& compressed matches Ok(data) ==> {
        let batches = r->Ok_0@;
        &&& batches.len() == 1
        &&& batches[0].data@ == data@
        &&& batches[0].event_name@ == event_name
        &&& batches[0].row_count == rows.len()
        &&& spells_bytes(batches[0].metadata.schema_ids@, digest)
        &&& spans_the_timestamps(
            rows,
            batches[0].metadata.start_time,
            batches[0].metadata.end_time,
        )
    }
    &&& compressed matches Err(e) ==> r->Err_0@ == "compression failed: "@ + e@
}

/// An outcome for some rows tells of the rows.
pub proof fn lemma_outcome_tells_the_rows(
    event_name: Seq<char>,
    digest: Seq<u8>,
    rows: Seq<RawRow>,
    compressed: Result<Vec<u8>, String>,
    r: Result<Vec<EncodedBatch>, String>,
)
    requires
        is_raw_outcome(event_name, digest, rows, compressed, r),
    ensures
        batch_tells_the_rows(event_name, digest, rows, compressed, r),
{
    lemma_hex_spells_bytes(digest);
    if compressed is Ok {
        let batch = r->Ok_0@[0];
        lemma_time_range(rows, batch.metadata.start_time, batch.metadata.end_time);
    }
}

/// The batch of a compressed blob holds the compressed bytes as they are and tells of the rows: how
/// many there are, from when to when, and under which name and schema.
pub proof fn law_batch_tells_the_rows(
    event_name: &str,
    digest: [u8; 16],
    rows: &[RawRow],
    compressed: Result<Vec<u8>, String>,
    r: Result<Vec<EncodedBatch>, String>,
)
    requires
        call_ensures(raw_outcome, (event_name, &digest, rows, compressed), r),
    ensures
        batch_tells_the_rows(event_name@, digest@, rows@, compressed, r),
{
    lemma_outcome_tells_the_rows(event_name@, digest@, rows@, compressed, r);
}

} // verus!
