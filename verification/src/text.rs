//! Records as delimited text: a header row that names the two fields, then
//! one row per record, a timestamp and a decimal value.
//!
//! Quoting, separators and line ends are the work of the delimited-text
//! library, one row at a time on the way out and the whole table at once on
//! the way in. Which rows are written, and which rows are records, is
//! decided here.

use crate::decimal::{decimal, parse_decimal, parsed_decimal, render_decimal};
use crate::error::BenchError;
use crate::record::Record;
use crate::timestamp::{parse_timestamp, rfc3339_millis, rfc3339_text, timestamp_text};
use vstd::prelude::*;

verus! {

/// The name of the first field: `time`.
pub open spec fn time_name() -> Seq<u8> {
    seq![116u8, 105, 109, 101]
}

/// The name of the second field: `value`.
pub open spec fn value_name() -> Seq<u8> {
    seq![118u8, 97, 108, 117, 101]
}

/// The line of delimited text that holds the two fields, with its line end;
/// `None` where the writer reports an error.
pub uninterp spec fn csv_line(first: Seq<u8>, second: Seq<u8>) -> Option<Seq<u8>>;

/// The rows of fields that `data` holds as delimited text, blank lines left
/// out; `None` where `data` is no table of rows of one length.
pub uninterp spec fn csv_table(data: Seq<u8>) -> Option<Seq<Seq<Seq<u8>>>>;

/// The fields of a row, as byte sequences.
pub open spec fn row_view(row: Seq<Vec<u8>>) -> Seq<Seq<u8>> {
    Seq::new(row.len(), |j: int| row[j]@)
}

/// The rows of a table, as sequences of byte sequences.
pub open spec fn table_view(rows: Seq<Vec<Vec<u8>>>) -> Seq<Seq<Seq<u8>>> {
    Seq::new(rows.len(), |i: int| row_view(rows[i]@))
}

/// Writes one record of two fields with `csv::Writer::write_record` into
/// memory and takes the bytes out with `csv::Writer::into_inner`. Claimed:
/// the outcome, bytes or error, depends on the two fields alone and is the
/// one named `csv_line`.
#[verifier::external_body]
pub(crate) fn write_line(first: &Vec<u8>, second: &Vec<u8>) -> (r: Result<Vec<u8>, std::io::Error>)
    ensures
        match r {
            Ok(line) => csv_line(first@, second@) == Some(line@),
            Err(_) => csv_line(first@, second@) is None,
        },
{
    let mut writer = csv::Writer::from_writer(Vec::new());
    writer.write_record([first, second])?;
    match writer.into_inner() {
        Ok(line) => Ok(line),
        Err(e) => Err(e.into_error()),
    }
}

/// Reads every row of `data` with `csv::Reader::byte_records`, the reader
/// built by `csv::ReaderBuilder` with `has_headers(false)`, so that the
/// first row comes out like the others. Claimed: the outcome depends on the
/// bytes alone and is the one named `csv_table`.
#[verifier::external_body]
pub(crate) fn read_table(data: &Vec<u8>) -> (r: Result<Vec<Vec<Vec<u8>>>, std::io::Error>)
    ensures
        match r {
            Ok(rows) => csv_table(data@) == Some(table_view(rows@)),
            Err(_) => csv_table(data@) is None,
        },
{
    let mut reader = csv::ReaderBuilder::new().has_headers(false).from_reader(data.as_slice());
    let mut rows = Vec::new();
    for row in reader.byte_records() {
        let row = row?;
        let mut fields = Vec::new();
        for field in row.iter() {
            fields.push(field.to_vec());
        }
        rows.push(fields);
    }
    Ok(rows)
}

/// The line of text for `record`; `None` where its timestamp has no text or
/// the writer reports an error on the line.
pub open spec fn record_line(record: Record) -> Option<Seq<u8>> {
    match rfc3339_text(record.time) {
        Some(text) => csv_line(text, decimal(record.value as int)),
        None => None,
    }
}

/// Every record of `records` has a timestamp that can be written.
pub open spec fn all_have_text(records: Seq<Record>) -> bool {
    forall|i: int| 0 <= i < records.len() ==> rfc3339_text((#[trigger] records[i]).time) is Some
}

/// The text of `records`: the header line, then the line of each record in
/// order; `None` where one of the lines cannot be written.
pub open spec fn document(records: Seq<Record>) -> Option<Seq<u8>>
    decreases records.len(),
{
    if records.len() == 0 {
        csv_line(time_name(), value_name())
    } else {
        match (document(records.drop_last()), record_line(records.last())) {
            (Some(before), Some(line)) => Some(before + line),
            _ => None,
        }
    }
}

/// A text that cannot be written up to some record cannot be written to the
/// end.
pub proof fn document_stays_unwritten(records: Seq<Record>, k: int)
    requires
        0 <= k <= records.len(),
        document(records.take(k)) is None,
    ensures
        document(records) is None,
    decreases records.len() - k,
{
    if k == records.len() {
        assert(records.take(k) =~= records);
    } else {
        assert(records.drop_last().take(k) =~= records.take(k));
        document_stays_unwritten(records.drop_last(), k);
    }
}

/// A text that can be written holds only records whose timestamps have a
/// text.
pub proof fn document_needs_every_text(records: Seq<Record>)
    requires
        document(records) is Some,
    ensures
        all_have_text(records),
    decreases records.len(),
{
    if records.len() > 0 {
        document_needs_every_text(records.drop_last());
        assert forall|i: int| 0 <= i < records.len() implies rfc3339_text(
            (#[trigger] records[i]).time,
        ) is Some by {
            if i < records.len() - 1 {
                assert(records.drop_last()[i] == records[i]);
            }
        }
    }
}

/// The header row.
pub open spec fn is_header(row: Seq<Seq<u8>>) -> bool {
    row.len() == 2 && row[0] == time_name() && row[1] == value_name()
}

/// The record that a row holds; `None` unless the row has two fields, the
/// first a timestamp and the second a decimal number.
pub open spec fn row_record(row: Seq<Seq<u8>>) -> Option<Record> {
    if row.len() == 2 && rfc3339_millis(row[0]) is Some && parsed_decimal(row[1]) is Some {
        Some(Record { time: rfc3339_millis(row[0])->0, value: parsed_decimal(row[1])->0 })
    } else {
        None
    }
}

/// Every row after the first holds a record.
pub open spec fn rows_are_records(rows: Seq<Seq<Seq<u8>>>) -> bool {
    forall|i: int| 1 <= i < rows.len() ==> row_record(#[trigger] rows[i]) is Some
}

/// The records of a table. A table without rows holds none. Otherwise the
/// first row must be the header, and every other row a record.
pub open spec fn table_records(rows: Seq<Seq<Seq<u8>>>) -> Result<Seq<Record>, BenchError> {
    if rows.len() == 0 {
        Ok(Seq::empty())
    } else if !is_header(rows[0]) {
        Err(BenchError::Header)
    } else if !rows_are_records(rows) {
        Err(BenchError::Row)
    } else {
        Ok(Seq::new((rows.len() - 1) as nat, |i: int| row_record(rows[i + 1])->0))
    }
}

/// The records of a text.
pub open spec fn text_records(data: Seq<u8>) -> Result<Seq<Record>, BenchError> {
    match csv_table(data) {
        None => Err(BenchError::Malformed),
        Some(rows) => table_records(rows),
    }
}

/// `r` is the outcome `want`: the same records, or the same error.
pub open spec fn same_outcome(
    r: Result<Vec<Record>, BenchError>,
    want: Result<Seq<Record>, BenchError>,
) -> bool {
    match r {
        Ok(records) => want == Ok::<Seq<Record>, BenchError>(records@),
        Err(e) => want == Err::<Seq<Record>, BenchError>(e),
    }
}

/// The bytes of the first field's name.
pub fn time_field() -> (name: Vec<u8>)
    ensures
        name@ == time_name(),
{
    let name: Vec<u8> = vec![116u8, 105, 109, 101];
    assert(name@ =~= time_name());
    name
}

/// The bytes of the second field's name.
pub fn value_field() -> (name: Vec<u8>)
    ensures
        name@ == value_name(),
{
    let name: Vec<u8> = vec![118u8, 97, 108, 117, 101];
    assert(name@ =~= value_name());
    name
}

/// Whether two byte strings are equal.
pub fn same_bytes(a: &Vec<u8>, b: &Vec<u8>) -> (r: bool)
    ensures
        r == (a@ == b@),
{
    if a.len() != b.len() {
        return false;
    }
    let mut i: usize = 0;
    while i < a.len()
        invariant
            i <= a.len(),
            a.len() == b.len(),
            a@.take(i as int) == b@.take(i as int),
        decreases a.len() - i,
    {
        if a[i] != b[i] {
            return false;
        }
        i = i + 1;
        assert(a@.take(i as int) =~= a@.take(i - 1).push(a@[i - 1]));
        assert(b@.take(i as int) =~= b@.take(i - 1).push(b@[i - 1]));
    }
    assert(a@.take(a.len() as int) =~= a@);
    assert(b@.take(b.len() as int) =~= b@);
    true
}

/// Adds a written line to `out`. Where the writer failed, `out` stays as it
/// was and the failure is reported as `Serialize`.
pub fn append_line(out: &mut Vec<u8>, line: Result<Vec<u8>, std::io::Error>) -> (r: Result<
    (),
    BenchError,
>)
    ensures
        match r {
            Ok(_) => line is Ok && final(out)@ == old(out)@ + line->Ok_0@,
            Err(e) => line is Err && e == BenchError::Serialize && final(out)@ == old(out)@,
        },
{
    match line {
        Ok(mut bytes) => {
            out.append(&mut bytes);
            Ok(())
        },
        Err(_) => Err(BenchError::Serialize),
    }
}

/// The text of every record's timestamp, in order; `None` exactly when some
/// record's timestamp has no text.
pub fn timestamp_texts(records: &Vec<Record>) -> (r: Option<Vec<Vec<u8>>>)
    ensures
        match r {
            Some(texts) => {
                &&& all_have_text(records@)
                &&& texts.len() == records.len()
                &&& forall|i: int|
                    0 <= i < records.len() ==> rfc3339_text(records[i].time) == Some(
                        (#[trigger] texts[i])@,
                    )
            },
            None => !all_have_text(records@),
        },
{
    let mut texts: Vec<Vec<u8>> = Vec::new();
    let mut i: usize = 0;
    while i < records.len()
        invariant
            i <= records.len(),
            texts.len() == i,
            forall|k: int|
                0 <= k < i ==> rfc3339_text(records[k].time) == Some((#[trigger] texts[k])@),
        decreases records.len() - i,
    {
        match timestamp_text(records[i].time) {
            None => {
                assert(rfc3339_text(records@[i as int].time) is None);
                return None;
            },
            Some(text) => {
                texts.push(text);
            },
        }
        i = i + 1;
    }
    assert forall|k: int| 0 <= k < records.len() implies rfc3339_text(
        (#[trigger] records@[k]).time,
    ) is Some by {
        assert(rfc3339_text(records[k].time) == Some(texts[k]@));
    }
    Some(texts)
}

/// What writing `records` as text comes to: the text where every line can
/// be written, `Timestamp` where some record's timestamp has no text, and
/// `Serialize` where every timestamp has one and the writer reports an error
/// on some line.
pub open spec fn is_serialize_outcome(records: Seq<Record>, r: Result<Vec<u8>, BenchError>) -> bool {
    match r {
        Ok(out) => all_have_text(records) && document(records) == Some(out@),
        Err(BenchError::Timestamp) => !all_have_text(records),
        Err(e) => e == BenchError::Serialize && all_have_text(records) && document(records) is None,
    }
}

/// Writes `records` as text: the header line, then one line per record, in
/// order. The header is written for an empty sequence too.
///
/// Succeeds exactly when the records have a text, and then returns it. Fails
/// with `Timestamp` exactly when some record's timestamp has no text, and
/// with `Serialize` exactly when every timestamp has one and the writer
/// reports an error on some line.
pub fn serialize_records(records: &Vec<Record>) -> (r: Result<Vec<u8>, BenchError>)
    ensures
        is_serialize_outcome(records@, r),
        r is Ok <==> document(records@) is Some,
{
    let texts = match timestamp_texts(records) {
        None => {
            proof {
                if document(records@) is Some {
                    document_needs_every_text(records@);
                }
            }
            return Err(BenchError::Timestamp);
        },
        Some(texts) => texts,
    };
    let mut out: Vec<u8> = Vec::new();
    let first = time_field();
    let second = value_field();
    match append_line(&mut out, write_line(&first, &second)) {
        Err(e) => {
            proof {
                assert(document(records@.take(0)) is None);
                document_stays_unwritten(records@, 0);
            }
            return Err(e);
        },
        Ok(_) => {},
    }
    assert(document(records@.take(0)) == Some(out@)) by {
        assert(out@ =~= csv_line(time_name(), value_name())->0);
    }
    let mut i: usize = 0;
    while i < records.len()
        invariant
            i <= records.len(),
            texts.len() == records.len(),
            all_have_text(records@),
            forall|k: int|
                0 <= k < records.len() ==> rfc3339_text(records[k].time) == Some(
                    (#[trigger] texts[k])@,
                ),
            document(records@.take(i as int)) == Some(out@),
        decreases records.len() - i,
    {
        let record: Record = records[i];
        let value = render_decimal(record.value);
        proof {
            let longer = records@.take(i + 1);
            assert(longer.drop_last() =~= records@.take(i as int));
            assert(longer.last() == record);
            assert(rfc3339_text(record.time) == Some(texts[i as int]@));
        }
        match append_line(&mut out, write_line(&texts[i], &value)) {
            Err(e) => {
                proof {
                    assert(document(records@.take(i + 1)) is None);
                    document_stays_unwritten(records@, i + 1);
                }
                return Err(e);
            },
            Ok(_) => {},
        }
        i = i + 1;
    }
    assert(records@.take(records.len() as int) =~= records@);
    Ok(out)
}

/// Reads one row as a record.
pub fn row_to_record(row: &Vec<Vec<u8>>) -> (r: Option<Record>)
    ensures
        r == row_record(row_view(row@)),
{
    if row.len() != 2 {
        return None;
    }
    match parse_timestamp(row[0].as_slice()) {
        None => None,
        Some(time) => match parse_decimal(&row[1]) {
            None => None,
            Some(value) => Some(Record { time, value }),
        },
    }
}

/// Whether `row` is the header row.
pub fn row_is_header(row: &Vec<Vec<u8>>) -> (r: bool)
    ensures
        r == is_header(row_view(row@)),
{
    if row.len() != 2 {
        return false;
    }
    let first = time_field();
    let second = value_field();
    same_bytes(&row[0], &first) && same_bytes(&row[1], &second)
}

/// Reads the records of a table of rows: the header first, then one record
/// per row. A table without rows holds no records.
///
/// Fails with `Header` exactly when there is a first row and it is not the
/// header, and with `Row` exactly when the header is there and some later
/// row is no record.
pub fn records_from_rows(rows: &Vec<Vec<Vec<u8>>>) -> (r: Result<Vec<Record>, BenchError>)
    ensures
        same_outcome(r, table_records(table_view(rows@))),
{
    let ghost table = table_view(rows@);
    let mut records: Vec<Record> = Vec::new();
    if rows.len() == 0 {
        assert(records@ =~= Seq::<Record>::empty());
        return Ok(records);
    }
    if !row_is_header(&rows[0]) {
        return Err(BenchError::Header);
    }
    let mut i: usize = 1;
    while i < rows.len()
        invariant
            1 <= i <= rows.len(),
            table == table_view(rows@),
            is_header(table[0]),
            records.len() == i - 1,
            forall|k: int| 1 <= k < i ==> row_record(#[trigger] table[k]) is Some,
            forall|k: int| 0 <= k < i - 1 ==> records[k] == row_record(table[k + 1])->0,
        decreases rows.len() - i,
    {
        match row_to_record(&rows[i]) {
            None => {
                assert(row_record(table[i as int]) is None);
                return Err(BenchError::Row);
            },
            Some(record) => {
                records.push(record);
            },
        }
        i = i + 1;
    }
    assert(rows_are_records(table));
    assert(records@ =~= table_records(table)->Ok_0);
    Ok(records)
}

/// Reads the records of a text.
///
/// Fails with `Malformed` exactly when the bytes are no table of delimited
/// text, and otherwise as `records_from_rows` does on the table's rows.
pub fn deserialize_records(data: &Vec<u8>) -> (r: Result<Vec<Record>, BenchError>)
    ensures
        same_outcome(r, text_records(data@)),
{
    match read_table(data) {
        Err(_) => Err(BenchError::Malformed),
        Ok(rows) => records_from_rows(&rows),
    }
}

} // verus!
