//! The ways in which encoding and decoding can fail.

use vstd::prelude::*;

verus! {

/// Why a record sequence could not be written out, or a byte stream could not
/// be read back.
#[derive(Clone, Copy, Debug, PartialEq, Eq, Structural)]
pub enum BenchError {
    /// A record's timestamp lies outside the dates that have a textual form.
    Timestamp,
    /// A line of delimited text could not be produced.
    Serialize,
    /// The codec could not produce its stream.
    Encode,
    /// The stream is not one of the codec's: it is damaged, cut short, or of
    /// another format.
    Decode,
    /// The decoded bytes are not delimited text.
    Malformed,
    /// The first row does not name the two fields.
    Header,
    /// A data row does not hold a timestamp and a decimal value.
    Row,
}

} // verus!
