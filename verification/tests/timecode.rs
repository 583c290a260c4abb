use videocrop::timecode::{convert_time_string_to_seconds, MalformedTimecode, Seconds};

fn micros_of(text: &str) -> u64 {
    match convert_time_string_to_seconds(text) {
        Ok(time) => time.micros,
        Err(error) => panic!("{:?} for {:?}", error, text),
    }
}

#[test]
fn ninety_seconds() {
    assert_eq!(convert_time_string_to_seconds("00:01:30"), Ok(Seconds { micros: 90_000_000 }));
}

#[test]
fn sum_of_hours_minutes_seconds() {
    assert_eq!(micros_of("01:02:03"), (3600 + 2 * 60 + 3) * 1_000_000);
    assert_eq!(micros_of("10:00:00"), 36_000_000_000);
    assert_eq!(micros_of("0:0:0"), 0);
}

#[test]
fn seconds_keep_their_fraction() {
    assert_eq!(micros_of("00:00:01.5"), 1_500_000);
    assert_eq!(micros_of("00:00:02.000001"), 2_000_001);
    assert_eq!(micros_of("00:00:.25"), 250_000);
    assert_eq!(micros_of("00:00:7."), 7_000_000);
}

#[test]
fn fraction_is_cut_below_the_microsecond() {
    assert_eq!(micros_of("00:00:00.1234567"), 123_456);
    assert_eq!(micros_of("00:00:00.9999999"), 999_999);
}

#[test]
fn hours_and_minutes_may_have_a_fraction() {
    assert_eq!(micros_of("1.5:00:00"), 5_400_000_000);
    assert_eq!(micros_of("00:0.5:00"), 30_000_000);
}

#[test]
fn minutes_above_fifty_nine_are_added_up() {
    assert_eq!(micros_of("00:90:00"), 5_400_000_000);
}

#[test]
fn wrong_field_count_is_rejected() {
    assert_eq!(convert_time_string_to_seconds(""), Err(MalformedTimecode::FieldCount));
    assert_eq!(convert_time_string_to_seconds("90"), Err(MalformedTimecode::FieldCount));
    assert_eq!(convert_time_string_to_seconds("01:30"), Err(MalformedTimecode::FieldCount));
    assert_eq!(convert_time_string_to_seconds("1:2:3:4"), Err(MalformedTimecode::FieldCount));
}

#[test]
fn malformed_fields_are_named() {
    assert_eq!(convert_time_string_to_seconds("aa:00:00"), Err(MalformedTimecode::Hours));
    assert_eq!(convert_time_string_to_seconds(":00:00"), Err(MalformedTimecode::Hours));
    assert_eq!(convert_time_string_to_seconds("00:x:00"), Err(MalformedTimecode::Minutes));
    assert_eq!(convert_time_string_to_seconds("00:00:"), Err(MalformedTimecode::Seconds));
    assert_eq!(convert_time_string_to_seconds("00:00:1.2.3"), Err(MalformedTimecode::Seconds));
    assert_eq!(convert_time_string_to_seconds("00:00:."), Err(MalformedTimecode::Seconds));
    assert_eq!(convert_time_string_to_seconds("00:00: 5"), Err(MalformedTimecode::Seconds));
    assert_eq!(convert_time_string_to_seconds("00:00:-5"), Err(MalformedTimecode::Seconds));
}

#[test]
fn first_malformed_field_wins() {
    assert_eq!(convert_time_string_to_seconds("a:b:c"), Err(MalformedTimecode::Hours));
    assert_eq!(convert_time_string_to_seconds("1:b:c"), Err(MalformedTimecode::Minutes));
}

#[test]
fn huge_times_are_capped() {
    assert_eq!(micros_of("99999999999999999999999999:00:00"), u64::MAX);
    assert_eq!(micros_of("00:00:18446744073709.551615"), u64::MAX);
    assert_eq!(micros_of("00:00:18446744073709.551614"), u64::MAX - 1);
    assert_eq!(micros_of("00:00:18446744073710"), u64::MAX);
}
