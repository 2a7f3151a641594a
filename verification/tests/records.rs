use codec_bench::decimal::{parse_decimal, render_decimal};
use codec_bench::record::{
    create_records, fits, generate, random_values, records_from, GenerateError, Record,
    STEP_MILLIS, VALUE_LIMIT,
};

const EPOCH: i64 = 1_104_537_600_000;

#[test]
fn generator_gives_the_requested_count() {
    for n in [0usize, 1, 2, 3, 17, 1000] {
        let records = create_records(n).unwrap();
        assert_eq!(records.len(), n);
    }
}

#[test]
fn generator_starts_at_the_fixed_epoch() {
    let records = create_records(1).unwrap();
    assert_eq!(records[0].time, EPOCH);
}

#[test]
fn generator_steps_by_a_tenth_of_a_second() {
    let records = create_records(500).unwrap();
    for (i, record) in records.iter().enumerate() {
        assert_eq!(record.time, EPOCH + 100 * i as i64);
    }
    for pair in records.windows(2) {
        assert!(pair[0].time < pair[1].time);
        assert_eq!(pair[1].time - pair[0].time, STEP_MILLIS);
    }
}

#[test]
fn generator_values_stay_below_the_limit() {
    let records = create_records(2000).unwrap();
    for record in &records {
        assert!(0 <= record.value && record.value < VALUE_LIMIT);
    }
}

#[test]
fn generator_of_nothing_gives_nothing() {
    assert_eq!(create_records(0).unwrap(), Vec::<Record>::new());
}

#[test]
fn random_values_have_length_and_range() {
    let values = random_values(300);
    assert_eq!(values.len(), 300);
    assert!(values.iter().all(|v| (0..10_000).contains(v)));
    assert!(random_values(0).is_empty());
}

#[test]
fn random_values_are_not_all_alike() {
    let values = random_values(200);
    assert!(values.iter().any(|v| *v != values[0]));
}

#[test]
fn series_carries_the_given_values() {
    let records = records_from(EPOCH, &vec![42, 7, 999]);
    assert_eq!(
        records,
        vec![
            Record { time: EPOCH, value: 42 },
            Record { time: EPOCH + 100, value: 7 },
            Record { time: EPOCH + 200, value: 999 },
        ]
    );
    assert!(records_from(5, &Vec::new()).is_empty());
    assert_eq!(records_from(-250, &vec![-1, 1])[1], Record { time: -150, value: 1 });
}

#[test]
fn series_room_is_measured_exactly() {
    assert!(fits(0, 0));
    assert!(fits(i64::MAX, 0));
    assert!(!fits(i64::MAX, 1));
    assert!(fits(i64::MAX - 100, 1));
    assert!(!fits(i64::MAX - 99, 1));
    assert!(fits(EPOCH, 1_000_000));
    assert!(fits(i64::MIN, 1_000));
}

#[test]
fn decimal_text_of_numbers() {
    assert_eq!(render_decimal(0), b"0".to_vec());
    assert_eq!(render_decimal(7), b"7".to_vec());
    assert_eq!(render_decimal(42), b"42".to_vec());
    assert_eq!(render_decimal(9999), b"9999".to_vec());
    assert_eq!(render_decimal(-1), b"-1".to_vec());
    assert_eq!(render_decimal(-120), b"-120".to_vec());
    assert_eq!(render_decimal(i64::MAX), b"9223372036854775807".to_vec());
    assert_eq!(render_decimal(i64::MIN), b"-9223372036854775808".to_vec());
}

#[test]
fn decimal_text_is_read_back() {
    for v in [0i64, 1, -1, 9, 10, 11, 99, 100, 9_999, -10_000, 123_456_789, i64::MAX, i64::MIN] {
        assert_eq!(parse_decimal(&render_decimal(v)), Some(v));
        assert_eq!(render_decimal(v), v.to_string().into_bytes());
    }
}

#[test]
fn decimal_reader_accepts_and_rejects() {
    assert_eq!(parse_decimal(&b"007".to_vec()), Some(7));
    assert_eq!(parse_decimal(&b"-0".to_vec()), Some(0));
    assert_eq!(parse_decimal(&b"9223372036854775807".to_vec()), Some(i64::MAX));
    assert_eq!(parse_decimal(&b"-9223372036854775808".to_vec()), Some(i64::MIN));
    assert_eq!(parse_decimal(&b"".to_vec()), None);
    assert_eq!(parse_decimal(&b"-".to_vec()), None);
    assert_eq!(parse_decimal(&b"+5".to_vec()), Some(5));
    assert_eq!(parse_decimal(&b"+0".to_vec()), Some(0));
    assert_eq!(parse_decimal(&b"+9223372036854775807".to_vec()), Some(i64::MAX));
    assert_eq!(parse_decimal(&b"+9223372036854775808".to_vec()), None);
    assert_eq!(parse_decimal(&b"+".to_vec()), None);
    assert_eq!(parse_decimal(&b"+-5".to_vec()), None);
    assert_eq!(parse_decimal(&b"-+5".to_vec()), None);
    assert_eq!(parse_decimal(&b"++5".to_vec()), None);
    assert_eq!(parse_decimal(&b"5+".to_vec()), None);
    assert_eq!(parse_decimal(&b"0x1f".to_vec()), None);
    assert_eq!(parse_decimal(&b"12a".to_vec()), None);
    assert_eq!(parse_decimal(&b" 12".to_vec()), None);
    assert_eq!(parse_decimal(&b"1-2".to_vec()), None);
    assert_eq!(parse_decimal(&b"--2".to_vec()), None);
    assert_eq!(parse_decimal(&b"9223372036854775808".to_vec()), None);
    assert_eq!(parse_decimal(&b"-9223372036854775809".to_vec()), None);
    assert_eq!(parse_decimal(&b"99999999999999999999999999".to_vec()), None);
}

#[test]
fn field_names_and_epoch_text() {
    assert_eq!(codec_bench::record::epoch_bytes(), b"2005-01-01T00:00:00Z".to_vec());
    assert_eq!(codec_bench::text::time_field(), b"time".to_vec());
    assert_eq!(codec_bench::text::value_field(), b"value".to_vec());
}

#[test]
fn generator_follows_the_reading_of_the_epoch() {
    for n in [0usize, 1, 3, 250] {
        let records = generate(Some(EPOCH), n).unwrap();
        assert_eq!(records.len(), n);
        for (i, record) in records.iter().enumerate() {
            assert_eq!(record.time, EPOCH + 100 * i as i64);
            assert!(0 <= record.value && record.value < 10_000);
        }
    }
    assert_eq!(generate(Some(-50), 2).unwrap()[1].time, 50);
    assert_eq!(generate(None, 0), Err(GenerateError::Epoch));
    assert_eq!(generate(None, 5), Err(GenerateError::Epoch));
    assert_eq!(generate(Some(i64::MAX), 1), Err(GenerateError::Range));
    assert_eq!(generate(Some(i64::MAX - 199), 2), Err(GenerateError::Range));
    assert_eq!(generate(Some(i64::MAX - 200), 2).unwrap().len(), 2);
    assert_eq!(generate(Some(i64::MAX), 0), Ok(Vec::new()));
}
