use codec_bench::bench::{default_suite, BenchResult, Benchmark, Span};
use codec_bench::codec::Codec;
use codec_bench::error::BenchError;
use codec_bench::record::{create_records, records_from, Record};
use codec_bench::text::{
    deserialize_records, records_from_rows, row_is_header, row_to_record, same_bytes,
    serialize_records,
};

const EPOCH: i64 = 1_104_537_600_000;

const ALL: [Codec; 6] =
    [Codec::Raw, Codec::Gzip1, Codec::Gzip9, Codec::Lz4, Codec::Snap, Codec::Zstd];

fn three() -> Vec<Record> {
    records_from(EPOCH, &vec![42, 7, 999])
}

fn three_as_text() -> Vec<u8> {
    b"time,value\n2005-01-01T00:00:00Z,42\n2005-01-01T00:00:00.100Z,7\n2005-01-01T00:00:00.200Z,999\n"
        .to_vec()
}

fn row(fields: &[&str]) -> Vec<Vec<u8>> {
    fields.iter().map(|f| f.as_bytes().to_vec()).collect()
}

#[test]
fn three_records_through_raw() {
    let bench = Benchmark::new("data.csv", Codec::Raw);
    let stored = bench.encode(&three()).unwrap();
    assert_eq!(stored, three_as_text());
    assert_eq!(stored.iter().filter(|b| **b == b'\n').count(), 4);
    assert_eq!(bench.decode(&stored).unwrap(), three());
}

#[test]
fn text_of_three_records() {
    assert_eq!(serialize_records(&three()).unwrap(), three_as_text());
    assert_eq!(deserialize_records(&three_as_text()).unwrap(), three());
}

#[test]
fn no_records_give_the_header_alone() {
    for codec in ALL {
        let bench = Benchmark::new("unused", codec);
        let stored = bench.encode(&Vec::new()).unwrap();
        assert_eq!(codec.decompress(&stored).unwrap(), b"time,value\n".to_vec());
        assert_eq!(bench.decode(&stored).unwrap(), Vec::<Record>::new());
    }
    assert_eq!(serialize_records(&Vec::new()).unwrap(), b"time,value\n".to_vec());
}

#[test]
fn empty_text_holds_no_records() {
    assert_eq!(deserialize_records(&Vec::new()).unwrap(), Vec::<Record>::new());
    assert_eq!(records_from_rows(&Vec::new()).unwrap(), Vec::<Record>::new());
}

#[test]
fn every_codec_gives_the_records_back() {
    let inputs = vec![
        Vec::new(),
        records_from(EPOCH, &vec![5]),
        three(),
        records_from(-1, &vec![i64::MIN, i64::MAX, 0, -1]),
        create_records(1000).unwrap(),
    ];
    for codec in ALL {
        let bench = Benchmark::new("unused", codec);
        for records in &inputs {
            let stored = bench.encode(records).unwrap();
            assert_eq!(&bench.decode(&stored).unwrap(), records);
        }
    }
}

#[test]
fn every_codec_gives_the_bytes_back() {
    let data: Vec<u8> = (0..5000u32).map(|i| (i % 7) as u8).collect();
    for codec in ALL {
        let stream = codec.compress(&data).unwrap();
        assert_eq!(codec.decompress(&stream).unwrap(), data);
        let nothing = codec.compress(&Vec::new()).unwrap();
        assert_eq!(codec.decompress(&nothing).unwrap(), Vec::<u8>::new());
    }
}

#[test]
fn raw_leaves_the_bytes_alone() {
    let data = b"any bytes \x00\xff at all".to_vec();
    assert_eq!(Codec::Raw.compress(&data).unwrap(), data);
    assert_eq!(Codec::Raw.decompress(&data).unwrap(), data);
}

#[test]
fn compressing_codecs_change_the_bytes() {
    let data: Vec<u8> = (0..5000u32).map(|i| (i % 7) as u8).collect();
    for codec in [Codec::Gzip1, Codec::Gzip9, Codec::Lz4, Codec::Snap, Codec::Zstd] {
        let stream = codec.compress(&data).unwrap();
        assert_ne!(stream, data);
        assert!(stream.len() < data.len());
    }
}

#[test]
fn streams_start_with_their_format_marks() {
    let data = b"hello hello hello".to_vec();
    assert_eq!(&Codec::Gzip1.compress(&data).unwrap()[..2], &[0x1f, 0x8b]);
    assert_eq!(&Codec::Lz4.compress(&data).unwrap()[..4], &[0x04, 0x22, 0x4d, 0x18]);
    assert_eq!(&Codec::Zstd.compress(&data).unwrap()[..4], &[0x28, 0xb5, 0x2f, 0xfd]);
    assert_eq!(&Codec::Snap.compress(&data).unwrap()[..10], b"\xff\x06\x00\x00sNaPpY");
}

#[test]
fn encoding_twice_gives_the_same_bytes() {
    let records = three();
    for codec in ALL {
        let bench = Benchmark::new("unused", codec);
        let first = bench.encode(&records).unwrap();
        let second = bench.encode(&records).unwrap();
        assert_eq!(first, second);
        assert_eq!(first.len(), second.len());
    }
}

#[test]
fn a_stream_of_another_codec_is_not_read() {
    let records = three();
    let kinds = [Codec::Raw, Codec::Gzip1, Codec::Lz4, Codec::Snap, Codec::Zstd];
    for writer in kinds {
        let stored = Benchmark::new("unused", writer).encode(&records).unwrap();
        for reader in kinds {
            if reader != writer {
                assert!(Benchmark::new("unused", reader).decode(&stored).is_err());
            }
        }
    }
}

#[test]
fn text_is_no_compressed_stream() {
    for codec in [Codec::Gzip1, Codec::Gzip9, Codec::Lz4, Codec::Snap, Codec::Zstd] {
        assert_eq!(codec.decompress(&three_as_text()), Err(BenchError::Decode));
        let bench = Benchmark::new("unused", codec);
        assert_eq!(bench.decode(&three_as_text()), Err(BenchError::Decode));
    }
}

#[test]
fn a_stream_cut_short_is_not_read() {
    let records = create_records(200).unwrap();
    for codec in [Codec::Gzip1, Codec::Lz4, Codec::Snap, Codec::Zstd] {
        let bench = Benchmark::new("unused", codec);
        let stored = bench.encode(&records).unwrap();
        let cut = stored[..stored.len() / 2].to_vec();
        assert!(bench.decode(&cut).is_err());
    }
}

#[test]
fn raw_file_size_is_the_length_of_the_text() {
    let records = create_records(1000).unwrap();
    let bench = Benchmark::new("data.csv", Codec::Raw);
    let stored = bench.encode(&records).unwrap();
    let text = serialize_records(&records).unwrap();
    let result: BenchResult = bench.outcome(
        Span { secs: 0, nanos: 1_500 },
        stored.len() as u64,
        Span { secs: 0, nanos: 900 },
    );
    assert_eq!(result.file_size, text.len() as u64);
    assert_eq!(result.algorithm, "raw");
    assert_eq!(result.write_duration, Span { secs: 0, nanos: 1_500 });
    assert_eq!(result.read_duration, Span { secs: 0, nanos: 900 });
    assert_eq!(result.total_duration(), Some(Span { secs: 0, nanos: 2_400 }));
    assert_eq!(stored.iter().filter(|b| **b == b'\n').count(), 1001);
}

#[test]
fn a_timestamp_without_a_date_is_refused() {
    let records = vec![Record { time: EPOCH, value: 1 }, Record { time: i64::MAX, value: 2 }];
    assert_eq!(serialize_records(&records), Err(BenchError::Timestamp));
    assert_eq!(
        Benchmark::new("unused", Codec::Zstd).encode(&records),
        Err(BenchError::Timestamp)
    );
}

#[test]
fn timestamps_before_the_epoch_and_with_fractions() {
    let records = vec![
        Record { time: 0, value: 0 },
        Record { time: -1, value: -5 },
        Record { time: 1_000_000_000_555, value: 3 },
    ];
    let text = serialize_records(&records).unwrap();
    assert_eq!(
        text,
        b"time,value\n1970-01-01T00:00:00Z,0\n1969-12-31T23:59:59.999Z,-5\n2001-09-09T01:46:40.555Z,3\n"
            .to_vec()
    );
    assert_eq!(deserialize_records(&text).unwrap(), records);
}

#[test]
fn text_with_rows_of_unequal_length_is_malformed() {
    assert_eq!(
        deserialize_records(&b"time,value\n2005-01-01T00:00:00Z\n".to_vec()),
        Err(BenchError::Malformed)
    );
}

#[test]
fn text_without_the_header_is_refused() {
    assert_eq!(
        deserialize_records(&b"when,what\n2005-01-01T00:00:00Z,1\n".to_vec()),
        Err(BenchError::Header)
    );
    assert_eq!(
        deserialize_records(&b"2005-01-01T00:00:00Z,1\n".to_vec()),
        Err(BenchError::Header)
    );
    assert_eq!(deserialize_records(&b"time,value,more\n".to_vec()), Err(BenchError::Header));
}

#[test]
fn rows_that_are_no_records_are_refused() {
    assert_eq!(
        deserialize_records(&b"time,value\nyesterday,1\n".to_vec()),
        Err(BenchError::Row)
    );
    assert_eq!(
        deserialize_records(&b"time,value\n2005-01-01T00:00:00Z,one\n".to_vec()),
        Err(BenchError::Row)
    );
    assert_eq!(
        deserialize_records(&b"time,value\n2005-01-01T00:00:00Z,1\n2005-01-01T00:00:00Z,\n".to_vec()),
        Err(BenchError::Row)
    );
}

#[test]
fn quoted_fields_are_read() {
    assert_eq!(
        deserialize_records(&b"\"time\",\"value\"\n\"2005-01-01T00:00:00.100Z\",\"7\"\n".to_vec()),
        Ok(vec![Record { time: EPOCH + 100, value: 7 }])
    );
}

#[test]
fn rows_become_records() {
    assert_eq!(
        row_to_record(&row(&["2005-01-01T00:00:00Z", "42"])),
        Some(Record { time: EPOCH, value: 42 })
    );
    assert_eq!(
        row_to_record(&row(&["2005-01-01T01:00:00+01:00", "-3"])),
        Some(Record { time: EPOCH, value: -3 })
    );
    assert_eq!(row_to_record(&row(&["2005-01-01T00:00:00Z"])), None);
    assert_eq!(row_to_record(&row(&["2005-01-01T00:00:00Z", "42", "x"])), None);
    assert_eq!(row_to_record(&row(&["42", "2005-01-01T00:00:00Z"])), None);
    assert_eq!(row_to_record(&vec![vec![0xff, 0xfe], b"1".to_vec()]), None);
    assert_eq!(row_to_record(&Vec::new()), None);
}

#[test]
fn header_row_is_recognised() {
    assert!(row_is_header(&row(&["time", "value"])));
    assert!(!row_is_header(&row(&["value", "time"])));
    assert!(!row_is_header(&row(&["time"])));
    assert!(!row_is_header(&row(&["time", "value", ""])));
    assert!(!row_is_header(&row(&["Time", "value"])));
    assert!(!row_is_header(&row(&["time", "values"])));
}

#[test]
fn tables_become_records() {
    let table = vec![
        row(&["time", "value"]),
        row(&["2005-01-01T00:00:00Z", "42"]),
        row(&["2005-01-01T00:00:00.100Z", "7"]),
    ];
    assert_eq!(
        records_from_rows(&table),
        Ok(vec![Record { time: EPOCH, value: 42 }, Record { time: EPOCH + 100, value: 7 }])
    );
    assert_eq!(records_from_rows(&vec![row(&["time", "value"])]), Ok(Vec::new()));
    assert_eq!(
        records_from_rows(&vec![row(&["2005-01-01T00:00:00Z", "42"])]),
        Err(BenchError::Header)
    );
    assert_eq!(
        records_from_rows(&vec![row(&["time", "value"]), row(&["x"])]),
        Err(BenchError::Row)
    );
    assert_eq!(
        records_from_rows(&vec![row(&["bad"]), row(&["x"])]),
        Err(BenchError::Header)
    );
}

#[test]
fn byte_strings_are_compared() {
    assert!(same_bytes(&b"abc".to_vec(), &b"abc".to_vec()));
    assert!(same_bytes(&Vec::new(), &Vec::new()));
    assert!(!same_bytes(&b"abc".to_vec(), &b"abd".to_vec()));
    assert!(!same_bytes(&b"abc".to_vec(), &b"ab".to_vec()));
    assert!(!same_bytes(&b"".to_vec(), &b"a".to_vec()));
}

#[test]
fn spans_add_with_carry() {
    let a = Span { secs: 1, nanos: 999_999_999 };
    let b = Span { secs: 2, nanos: 1 };
    assert_eq!(a.plus(&b), Some(Span { secs: 4, nanos: 0 }));
    assert_eq!(b.plus(&b), Some(Span { secs: 4, nanos: 2 }));
    let zero = Span { secs: 0, nanos: 0 };
    assert_eq!(zero.plus(&zero), Some(zero));
    let most = Span { secs: u64::MAX, nanos: 999_999_999 };
    assert_eq!(most.plus(&zero), Some(most));
    assert_eq!(most.plus(&Span { secs: 0, nanos: 1 }), None);
    assert_eq!(most.plus(&Span { secs: 1, nanos: 0 }), None);
}

#[test]
fn suite_lists_the_codecs_in_report_order() {
    let suite = default_suite();
    let listed: Vec<(&str, Codec)> =
        suite.iter().map(|b| (b.filepath.as_str(), b.codec)).collect();
    assert_eq!(
        listed,
        vec![
            ("data.csv", Codec::Raw),
            ("data.csv.gz1", Codec::Gzip1),
            ("data.csv.lz4", Codec::Lz4),
            ("data.csv.sz", Codec::Snap),
            ("data.csv.zstd", Codec::Zstd),
        ]
    );
}

#[test]
fn codecs_have_their_labels() {
    let labels: Vec<&str> = ALL.iter().map(|c| c.label()).collect();
    assert_eq!(labels, vec!["raw", "gzip(1)", "gzip(9)", "lz4", "snap", "zstd"]);
}

#[test]
fn benchmark_keeps_path_and_codec() {
    let bench = Benchmark::new("some/where.lz4", Codec::Lz4);
    assert_eq!(bench.filepath, "some/where.lz4");
    assert_eq!(bench.codec, Codec::Lz4);
}

#[test]
fn zero_rows_complete_both_phases() {
    let records = create_records(0).unwrap();
    let bench = Benchmark::new("data.csv", Codec::Raw);
    let stored = bench.encode(&records).unwrap();
    assert_eq!(stored, b"time,value\n".to_vec());
    assert_eq!(bench.decode(&stored).unwrap(), records);
    let none = Span { secs: 0, nanos: 0 };
    let result = bench.outcome(none, stored.len() as u64, none);
    assert_eq!(result.file_size, 11);
    assert_eq!(result.total_duration(), Some(none));
    let speed = result.file_size as f64 / result.write_duration.secs as f64;
    assert!(speed.is_infinite());
    let nothing = bench.outcome(none, 0, none);
    assert!((nothing.file_size as f64 / nothing.read_duration.secs as f64).is_nan());
}

#[test]
fn gzip_levels_share_one_format() {
    let records = three();
    let fast = Benchmark::new("unused", Codec::Gzip1).encode(&records).unwrap();
    let best = Benchmark::new("unused", Codec::Gzip9).encode(&records).unwrap();
    assert_eq!(Benchmark::new("unused", Codec::Gzip9).decode(&fast).unwrap(), records);
    assert_eq!(Benchmark::new("unused", Codec::Gzip1).decode(&best).unwrap(), records);
}

#[test]
fn timestamp_texts_are_all_or_nothing() {
    let texts = codec_bench::text::timestamp_texts(&three()).unwrap();
    assert_eq!(
        texts,
        vec![
            b"2005-01-01T00:00:00Z".to_vec(),
            b"2005-01-01T00:00:00.100Z".to_vec(),
            b"2005-01-01T00:00:00.200Z".to_vec(),
        ]
    );
    assert_eq!(codec_bench::text::timestamp_texts(&Vec::new()), Some(Vec::new()));
    let beyond = vec![Record { time: 0, value: 0 }, Record { time: i64::MIN, value: 0 }];
    assert_eq!(codec_bench::text::timestamp_texts(&beyond), None);
}

#[test]
fn lines_are_appended_or_refused() {
    let mut out = b"head\n".to_vec();
    assert_eq!(codec_bench::text::append_line(&mut out, Ok(b"a,b\n".to_vec())), Ok(()));
    assert_eq!(out, b"head\na,b\n".to_vec());
    let failed = std::io::Error::new(std::io::ErrorKind::Other, "full");
    assert_eq!(codec_bench::text::append_line(&mut out, Err(failed)), Err(BenchError::Serialize));
    assert_eq!(out, b"head\na,b\n".to_vec());
}

#[test]
fn outcomes_are_settled() {
    let failed = std::io::Error::new(std::io::ErrorKind::InvalidData, "bad");
    assert_eq!(
        codec_bench::codec::settle(Err(failed), BenchError::Decode),
        Err(BenchError::Decode)
    );
    assert_eq!(
        codec_bench::codec::settle(Ok(vec![1, 2, 3]), BenchError::Encode),
        Ok(vec![1, 2, 3])
    );
    assert_eq!(codec_bench::codec::copy_bytes(&vec![9, 8, 7]), vec![9, 8, 7]);
    assert_eq!(codec_bench::codec::copy_bytes(&Vec::new()), Vec::<u8>::new());
}
