//! One codec's measurement: what is written to its file, what is read back
//! from it, and the figures that are kept of the two phases.
//!
//! Opening files and taking the time are left to the caller. The write phase
//! hands the caller the bytes to store; the read phase takes the stored
//! bytes.

use crate::codec::{compressed, decompressed, label_of, Codec};
use crate::error::BenchError;
use crate::record::Record;
use crate::decimal::{decimal, decimal_round_trip};
use crate::text::{
    all_have_text, csv_table, deserialize_records, document, is_header, row_record,
    rows_are_records, same_outcome, serialize_records, table_records, text_records, time_name,
    value_name,
};
use crate::timestamp::{rfc3339_millis, rfc3339_text};
use vstd::prelude::*;

verus! {

/// Nanoseconds in a second.
pub const NANOS_PER_SEC: u32 = 1_000_000_000;

/// An elapsed time: whole seconds and the nanoseconds of the second begun.
#[derive(Clone, Copy, Debug, PartialEq, Eq, Structural)]
pub struct Span {
    pub secs: u64,
    pub nanos: u32,
}

impl Span {
    /// The nanoseconds are less than a second.
    pub open spec fn well_formed(&self) -> bool {
        self.nanos < NANOS_PER_SEC
    }

    /// The span in nanoseconds.
    pub open spec fn total_nanos(&self) -> nat {
        (self.secs * 1_000_000_000 + self.nanos) as nat
    }

    /// The sum of two spans; `None` exactly when its whole seconds do not fit
    /// in 64 bits.
    pub fn plus(&self, other: &Span) -> (r: Option<Span>)
        requires
            self.well_formed(),
            other.well_formed(),
        ensures
            r is Some <==> self.total_nanos() + other.total_nanos() < (u64::MAX as nat + 1)
                * 1_000_000_000,
            r matches Some(sum) ==> sum.well_formed() && sum.total_nanos() == self.total_nanos()
                + other.total_nanos(),
    {
        let nanos: u32 = self.nanos + other.nanos;
        let carry: u64 = if nanos >= NANOS_PER_SEC { 1 } else { 0 };
        let rest: u32 = if nanos >= NANOS_PER_SEC { nanos - NANOS_PER_SEC } else { nanos };
        let secs: u128 = self.secs as u128 + other.secs as u128 + carry as u128;
        if secs > u64::MAX as u128 {
            None
        } else {
            Some(Span { secs: secs as u64, nanos: rest })
        }
    }
}

/// A file path and the codec whose stream is kept there.
pub struct Benchmark {
    pub filepath: String,
    pub codec: Codec,
}

/// The figures of one measurement.
#[derive(Clone, Copy, Debug)]
pub struct BenchResult {
    /// The codec's label.
    pub algorithm: &'static str,
    /// The time the write phase took.
    pub write_duration: Span,
    /// The number of bytes in the file.
    pub file_size: u64,
    /// The time the read phase took.
    pub read_duration: Span,
}

/// What `codec` stores for `records`: their text, passed through the codec;
/// `None` where the text cannot be written or the codec has no stream for it.
pub open spec fn encoded(codec: Codec, records: Seq<Record>) -> Option<Seq<u8>> {
    match document(records) {
        Some(text) => compressed(codec, text),
        None => None,
    }
}

/// What the write phase of `codec` on `records` comes to: the stored bytes
/// where there are any, and otherwise the first step that fails.
pub open spec fn is_encode_outcome(
    codec: Codec,
    records: Seq<Record>,
    r: Result<Vec<u8>, BenchError>,
) -> bool {
    match r {
        Ok(stored) => all_have_text(records) && encoded(codec, records) == Some(stored@),
        Err(BenchError::Timestamp) => !all_have_text(records),
        Err(BenchError::Serialize) => all_have_text(records) && document(records) is None,
        Err(e) => {
            &&& e == BenchError::Encode
            &&& all_have_text(records)
            &&& document(records) is Some
            &&& encoded(codec, records) is None
        },
    }
}

/// What `codec` reads out of `stored`: the records of the text that the
/// stream holds.
pub open spec fn decoded(codec: Codec, stored: Seq<u8>) -> Result<Seq<Record>, BenchError> {
    match decompressed(codec, stored) {
        None => Err(BenchError::Decode),
        Some(text) => text_records(text),
    }
}

/// The rows that are written for `records`: the header, then the two fields
/// of each record.
pub open spec fn written_rows(records: Seq<Record>) -> Seq<Seq<Seq<u8>>> {
    Seq::new(
        records.len() + 1,
        |i: int|
            if i == 0 {
                seq![time_name(), value_name()]
            } else {
                seq![rfc3339_text(records[i - 1].time)->0, decimal(records[i - 1].value as int)]
            },
    )
}

/// The parts that other libraries do are done, and give back what they were
/// given, on `records` under `codec`: the text is written and the codec has a
/// stream for it; the codec's decoder reads the text from that stream, the
/// table reader the rows from the text, and the date reader each timestamp
/// from its text.
pub open spec fn parts_are_faithful(codec: Codec, records: Seq<Record>) -> bool {
    &&& document(records) is Some
    &&& compressed(codec, document(records)->0) is Some
    &&& decompressed(codec, compressed(codec, document(records)->0)->0) == Some(
        document(records)->0,
    )
    &&& csv_table(document(records)->0) == Some(written_rows(records))
    &&& forall|i: int|
        0 <= i < records.len() ==> rfc3339_millis(rfc3339_text(#[trigger] records[i].time)->0)
            == Some(records[i].time)
}

/// The rows written for records that can be written are read as those
/// records, provided each timestamp is read as it was written: the header is
/// recognised, each row has its two fields, and each value is read from its
/// decimal text.
pub proof fn written_rows_hold_the_records(records: Seq<Record>)
    requires
        all_have_text(records),
        forall|i: int|
            0 <= i < records.len() ==> rfc3339_millis(rfc3339_text(#[trigger] records[i].time)->0)
                == Some(records[i].time),
    ensures
        table_records(written_rows(records)) == Ok::<Seq<Record>, BenchError>(records),
{
    let rows = written_rows(records);
    assert(is_header(rows[0]));
    assert forall|i: int| 1 <= i < rows.len() implies row_record(#[trigger] rows[i]) == Some(
        records[i - 1],
    ) by {
        let record = records[i - 1];
        decimal_round_trip(record.value);
        assert(rows[i][0] == rfc3339_text(record.time)->0);
        assert(rows[i][1] == decimal(record.value as int));
    }
    assert(rows_are_records(rows));
    assert(table_records(rows)->Ok_0 =~= records);
}

/// Decoding what was encoded gives the records back, in order and field for
/// field, for every codec and every sequence of records that can be written,
/// wherever the parts done by other libraries are faithful on it. For the
/// identity codec the codec's own part is always faithful.
pub proof fn round_trip_of_faithful_parts(codec: Codec, records: Seq<Record>)
    requires
        all_have_text(records),
        parts_are_faithful(codec, records),
    ensures
        encoded(codec, records) is Some,
        decoded(codec, encoded(codec, records)->0) == Ok::<Seq<Record>, BenchError>(records),
{
    written_rows_hold_the_records(records);
}

/// The write phase is repeatable. Two runs of `Benchmark::encode` with the
/// same codec on the same records come to the same end: both succeed or both
/// fail, with the same error; where they succeed they store the same bytes,
/// and so files of one size.
pub proof fn encode_is_repeatable(
    codec: Codec,
    records: Seq<Record>,
    first: Result<Vec<u8>, BenchError>,
    second: Result<Vec<u8>, BenchError>,
)
    requires
        is_encode_outcome(codec, records, first),
        is_encode_outcome(codec, records, second),
    ensures
        first is Ok <==> second is Ok,
        first is Ok ==> first->Ok_0@ == second->Ok_0@ && first->Ok_0@.len() == second->Ok_0@.len(),
        first is Err ==> first->Err_0 == second->Err_0,
{
}

/// With the identity codec the file holds the records' text itself, so the
/// file's size is the length of the text.
pub proof fn raw_stores_the_text(records: Seq<Record>)
    ensures
        encoded(Codec::Raw, records) == document(records),
        document(records) is Some ==> encoded(Codec::Raw, records)->0.len() == document(
            records,
        )->0.len(),
{
}

impl Benchmark {
    /// A measurement of `codec` on the file at `filepath`.
    pub fn new(filepath: &str, codec: Codec) -> (r: Benchmark)
        ensures
            r.filepath@ == filepath@,
            r.codec == codec,
    {
        Benchmark { filepath: filepath.to_owned(), codec }
    }

    /// The write phase: the records as text, passed through the codec and
    /// finished. The result is what belongs in the file.
    ///
    /// Succeeds exactly when every timestamp has a text and the codec has a
    /// stream for the records' text; the bytes are then that stream, which
    /// depends on the codec and the records alone. Fails with `Timestamp`
    /// exactly when some timestamp has no text; otherwise with `Serialize`
    /// exactly when the text cannot be written, and otherwise with `Encode`.
    pub fn encode(&self, records: &Vec<Record>) -> (r: Result<Vec<u8>, BenchError>)
        ensures
            is_encode_outcome(self.codec, records@, r),
            r is Ok <==> all_have_text(records@) && encoded(self.codec, records@) is Some,
    {
        match serialize_records(records) {
            Err(e) => Err(e),
            Ok(text) => self.codec.compress(&text),
        }
    }

    /// The read phase: the stored bytes, passed through the codec's decoder
    /// to the end and read as records.
    ///
    /// Fails with `Decode` exactly when the codec rejects the stream, and
    /// otherwise exactly as reading the text fails.
    pub fn decode(&self, stored: &Vec<u8>) -> (r: Result<Vec<Record>, BenchError>)
        ensures
            same_outcome(r, decoded(self.codec, stored@)),
    {
        match self.codec.decompress(stored) {
            Err(e) => Err(e),
            Ok(text) => deserialize_records(&text),
        }
    }

    /// The figures of a measurement of this codec.
    pub fn outcome(&self, write_duration: Span, file_size: u64, read_duration: Span) -> (r:
        BenchResult)
        ensures
            r.algorithm@ == label_of(self.codec),
            r.write_duration == write_duration,
            r.file_size == file_size,
            r.read_duration == read_duration,
    {
        BenchResult { algorithm: self.codec.label(), write_duration, file_size, read_duration }
    }
}

impl BenchResult {
    /// The time both phases took together; `None` exactly when the sum's
    /// whole seconds do not fit in 64 bits.
    pub fn total_duration(&self) -> (r: Option<Span>)
        requires
            self.write_duration.well_formed(),
            self.read_duration.well_formed(),
        ensures
            r is Some <==> self.write_duration.total_nanos() + self.read_duration.total_nanos() < (
            u64::MAX as nat + 1) * 1_000_000_000,
            r matches Some(sum) ==> sum.well_formed() && sum.total_nanos()
                == self.write_duration.total_nanos() + self.read_duration.total_nanos(),
    {
        self.write_duration.plus(&self.read_duration)
    }
}

/// The codecs that are measured, in the order of the report, each with the
/// name of its file.
pub fn default_suite() -> (suite: Vec<Benchmark>)
    ensures
        suite.len() == 5,
        suite[0].codec == Codec::Raw && suite[0].filepath@ == "data.csv"@,
        suite[1].codec == Codec::Gzip1 && suite[1].filepath@ == "data.csv.gz1"@,
        suite[2].codec == Codec::Lz4 && suite[2].filepath@ == "data.csv.lz4"@,
        suite[3].codec == Codec::Snap && suite[3].filepath@ == "data.csv.sz"@,
        suite[4].codec == Codec::Zstd && suite[4].filepath@ == "data.csv.zstd"@,
{
    let mut suite: Vec<Benchmark> = Vec::new();
    suite.push(Benchmark::new("data.csv", Codec::Raw));
    suite.push(Benchmark::new("data.csv.gz1", Codec::Gzip1));
    suite.push(Benchmark::new("data.csv.lz4", Codec::Lz4));
    suite.push(Benchmark::new("data.csv.sz", Codec::Snap));
    suite.push(Benchmark::new("data.csv.zstd", Codec::Zstd));
    suite
}

} // verus!
