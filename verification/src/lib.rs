//! Timestamped record series, their delimited-text form, and the stream
//! codecs that the text can be passed through, with the bookkeeping of a
//! write-then-read measurement.

pub mod bench;
pub mod codec;
pub mod decimal;
pub mod error;
pub mod record;
pub mod text;
pub mod timestamp;
