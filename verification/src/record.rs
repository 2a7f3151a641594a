//! Records and the generator of evenly spaced series.
//!
//! A timestamp is held as the number of milliseconds since
//! 1970-01-01T00:00:00Z; its textual form belongs to the `timestamp` module.

use crate::timestamp::{parse_timestamp, rfc3339_millis};
use vstd::prelude::*;

verus! {

/// Distance between two consecutive timestamps of a generated series, in
/// milliseconds.
pub const STEP_MILLIS: i64 = 100;

/// Generated values lie in `0 .. VALUE_LIMIT`.
pub const VALUE_LIMIT: i64 = 10_000;

/// One measurement: a point in time and an integer value.
#[derive(Clone, Copy, Debug, PartialEq, Eq, Structural)]
pub struct Record {
    /// Milliseconds since 1970-01-01T00:00:00Z.
    pub time: i64,
    pub value: i64,
}

/// Why a series could not be generated.
#[derive(Clone, Copy, Debug, PartialEq, Eq, Structural)]
pub enum GenerateError {
    /// The text of the first timestamp is not a date and time.
    Epoch,
    /// The series would run past the largest timestamp that can be held.
    Range,
}

/// The text of the first timestamp of every generated series:
/// `2005-01-01T00:00:00Z`.
pub open spec fn epoch_text() -> Seq<u8> {
    seq![
        50u8, 48, 48, 53, 45, 48, 49, 45, 48, 49, 84, 48, 48, 58, 48, 48, 58, 48, 48, 90,
    ]
}

/// The text of the first timestamp, as bytes.
pub fn epoch_bytes() -> (text: Vec<u8>)
    ensures
        text@ == epoch_text(),
{
    let text: Vec<u8> = vec![
        50u8, 48, 48, 53, 45, 48, 49, 45, 48, 49, 84, 48, 48, 58, 48, 48, 58, 48, 48, 90,
    ];
    assert(text@ =~= epoch_text());
    text
}

/// The timestamp of the record at `index` in a series that starts at `base`.
pub open spec fn timestamp_at(base: int, index: int) -> int {
    base + index * STEP_MILLIS
}

/// Every record of `records` sits at its place in the series from `base`.
pub open spec fn is_series(records: Seq<Record>, base: int) -> bool {
    forall|i: int|
        0 <= i < records.len() ==> (#[trigger] records[i]).time == timestamp_at(base, i)
}

/// Every value of `values` lies in `0 .. VALUE_LIMIT`.
pub open spec fn values_in_range(values: Seq<i64>) -> bool {
    forall|i: int| 0 <= i < values.len() ==> 0 <= #[trigger] values[i] < VALUE_LIMIT
}

/// The values of `records`, in order.
pub open spec fn values_of(records: Seq<Record>) -> Seq<i64> {
    Seq::new(records.len(), |i: int| records[i].value)
}

/// The series from `base` that carries `values`.
pub open spec fn series(base: int, values: Seq<i64>) -> Seq<Record> {
    Seq::new(
        values.len(),
        |i: int| (Record { time: timestamp_at(base, i) as i64, value: values[i] }),
    )
}

/// A series from `base` with `count` records stays within what a timestamp
/// can hold, the step after the last record included.
pub open spec fn series_fits(base: int, count: int) -> bool {
    base + count * STEP_MILLIS <= i64::MAX
}

/// Draws a value with rand's `Rng::gen_range` on the thread's generator.
/// Claimed: the value lies in `0 .. limit`. Which one it is, is left open.
#[verifier::external_body]
pub(crate) fn draw_below(limit: i64) -> (r: i64)
    requires
        0 < limit,
    ensures
        0 <= r < limit,
{
    rand::Rng::gen_range(&mut rand::thread_rng(), 0..limit)
}

/// Draws `count` values, each in `0 .. VALUE_LIMIT`.
pub fn random_values(count: usize) -> (values: Vec<i64>)
    ensures
        values.len() == count,
        values_in_range(values@),
{
    let mut values: Vec<i64> = Vec::new();
    while values.len() < count
        invariant
            values.len() <= count,
            values_in_range(values@),
        decreases count - values.len(),
    {
        let v: i64 = draw_below(VALUE_LIMIT);
        values.push(v);
    }
    values
}

/// Lays `values` out as a series from `base`: the record at `i` carries
/// `values[i]` and the timestamp `base + i * STEP_MILLIS`.
pub fn records_from(base: i64, values: &Vec<i64>) -> (records: Vec<Record>)
    requires
        series_fits(base as int, values.len() as int),
    ensures
        records@ == series(base as int, values@),
        is_series(records@, base as int),
        values_of(records@) == values@,
{
    let mut records: Vec<Record> = Vec::with_capacity(values.len());
    let mut time: i64 = base;
    let mut i: usize = 0;
    while i < values.len()
        invariant
            i <= values.len(),
            records.len() == i,
            time == base + i * STEP_MILLIS,
            series_fits(base as int, values.len() as int),
            forall|k: int|
                0 <= k < i ==> records[k] == (Record {
                    time: timestamp_at(base as int, k) as i64,
                    value: values[k],
                }),
        decreases values.len() - i,
    {
        records.push(Record { time, value: values[i] });
        time = time + STEP_MILLIS;
        i = i + 1;
    }
    assert(records@ =~= series(base as int, values@));
    assert(values_of(records@) =~= values@);
    records
}

/// What generating `nb_rows` records comes to, given the reading `epoch` of
/// the first timestamp's text: a series from that reading with values in
/// `0 .. VALUE_LIMIT`; `Epoch` where there is no reading; `Range` where there
/// is one and the series would not fit.
pub open spec fn is_generate_outcome(
    epoch: Option<i64>,
    nb_rows: usize,
    r: Result<Vec<Record>, GenerateError>,
) -> bool {
    match r {
        Ok(records) => {
            &&& epoch is Some
            &&& series_fits(epoch->0 as int, nb_rows as int)
            &&& records.len() == nb_rows
            &&& is_series(records@, epoch->0 as int)
            &&& values_in_range(values_of(records@))
        },
        Err(GenerateError::Epoch) => epoch is None,
        Err(GenerateError::Range) => epoch is Some && !series_fits(
            epoch->0 as int,
            nb_rows as int,
        ),
    }
}

/// Generates `nb_rows` records from the reading `epoch` of the first
/// timestamp's text: a series from it with values drawn at random from
/// `0 .. VALUE_LIMIT`.
///
/// Succeeds exactly when there is a reading and the series fits. Fails with
/// `Epoch` exactly when there is no reading, and with `Range` exactly when
/// there is one and the series would not fit.
pub fn generate(epoch: Option<i64>, nb_rows: usize) -> (r: Result<Vec<Record>, GenerateError>)
    ensures
        is_generate_outcome(epoch, nb_rows, r),
        r is Ok <==> epoch is Some && series_fits(epoch->0 as int, nb_rows as int),
{
    match epoch {
        None => Err(GenerateError::Epoch),
        Some(base) => {
            if !fits(base, nb_rows) {
                Err(GenerateError::Range)
            } else {
                let values = random_values(nb_rows);
                Ok(records_from(base, &values))
            }
        },
    }
}

/// Generates `nb_rows` records: a series from the fixed first timestamp with
/// values drawn at random from `0 .. VALUE_LIMIT`.
///
/// The first timestamp is what the date reader makes of `epoch_text()`.
/// Succeeds exactly when that text is read and the series fits; fails with
/// `Epoch` exactly when it is not read, and with `Range` exactly when it is
/// and the series would not fit.
pub fn create_records(nb_rows: usize) -> (r: Result<Vec<Record>, GenerateError>)
    ensures
        is_generate_outcome(rfc3339_millis(epoch_text()), nb_rows, r),
        r is Ok <==> rfc3339_millis(epoch_text()) is Some && series_fits(
            rfc3339_millis(epoch_text())->0 as int,
            nb_rows as int,
        ),
{
    let text = epoch_bytes();
    generate(parse_timestamp(text.as_slice()), nb_rows)
}

/// Whether a series from `base` with `count` records fits.
pub fn fits(base: i64, count: usize) -> (r: bool)
    ensures
        r == series_fits(base as int, count as int),
{
    let room: i128 = i64::MAX as i128 - base as i128;
    let need: i128 = count as i128 * STEP_MILLIS as i128;
    need <= room
}

/// In a series the timestamps grow strictly, and two neighbours are one step
/// apart.
pub proof fn series_strictly_increasing(records: Seq<Record>, base: int)
    requires
        is_series(records, base),
    ensures
        forall|i: int, j: int|
            0 <= i < j < records.len() ==> (#[trigger] records[i]).time < (
            #[trigger] records[j]).time,
        forall|i: int|
            0 <= i && i + 1 < records.len() ==> (#[trigger] records[i + 1]).time
                == records[i].time + STEP_MILLIS,
{
    assert forall|i: int, j: int| 0 <= i < j < records.len() implies (#[trigger] records[i]).time
        < (#[trigger] records[j]).time by {
        assert(records[i].time == timestamp_at(base, i));
        assert(records[j].time == timestamp_at(base, j));
    }
    assert forall|i: int| 0 <= i && i + 1 < records.len() implies (#[trigger] records[i
        + 1]).time == records[i].time + STEP_MILLIS by {
        assert(records[i].time == timestamp_at(base, i));
        assert(records[i + 1].time == timestamp_at(base, i + 1));
    }
}

/// For every row count, the generator that starts from a reading `base` of
/// the first timestamp's text and has room for the series gives exactly that
/// many records; the first carries `base`, the timestamps grow strictly, and
/// two neighbours are one step apart.
pub proof fn generated_series_is_regular(
    base: i64,
    nb_rows: usize,
    r: Result<Vec<Record>, GenerateError>,
)
    requires
        is_generate_outcome(Some(base), nb_rows, r),
        series_fits(base as int, nb_rows as int),
    ensures
        r is Ok,
        r->Ok_0@.len() == nb_rows,
        nb_rows > 0 ==> r->Ok_0@[0].time == base,
        forall|i: int| 0 <= i < nb_rows ==> (#[trigger] r->Ok_0@[i]).time == base + i * STEP_MILLIS,
        forall|i: int, j: int|
            0 <= i < j < nb_rows ==> (#[trigger] r->Ok_0@[i]).time < (#[trigger] r->Ok_0@[j]).time,
        forall|i: int|
            0 <= i && i + 1 < nb_rows ==> (#[trigger] r->Ok_0@[i + 1]).time == r->Ok_0@[i].time
                + STEP_MILLIS,
{
    series_strictly_increasing(r->Ok_0@, base as int);
}

} // verus!
