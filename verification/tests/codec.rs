use hour_tracker::clock::{
    anchor, deserialize, format_display, has_display_shape, instant_of, now, parse_strict, serialize,
    stored_text,
};
use hour_tracker::error::TrackError;
use hour_tracker::instant::{Instant, MAX_SECONDS};
use hour_tracker::record::ShiftRecord;
use hour_tracker::rows::{decode, encode, header_row, is_header, read_row, row_of};
use hour_tracker::store::Store;
use hour_tracker::table::{line_bytes, rows_of, table_bytes};

const NINE: i64 = 1_704_099_600;
const HALF_PAST_FIVE: i64 = 1_704_130_200;

fn utc(seconds: i64) -> Instant {
    Instant::from_parts(seconds, 0, 0).unwrap()
}

fn row(fields: &[&str]) -> Vec<String> {
    fields.iter().map(|f| f.to_string()).collect()
}

#[test]
fn now_is_after_the_year_2020() {
    let t = now();
    assert!(t.seconds() > 1_577_836_800);
    assert!(t.nanos() < 1_000_000_000);
}

#[test]
fn serialize_writes_rfc3339() {
    assert_eq!(serialize(&utc(NINE)), "2024-01-01T09:00:00+00:00");
    let east = Instant::from_parts(NINE, 0, 19_800).unwrap();
    assert_eq!(serialize(&east), "2024-01-01T14:30:00+05:30");
    let west = Instant::from_parts(NINE, 123_000_000, -28_800).unwrap();
    assert_eq!(serialize(&west), "2024-01-01T01:00:00.123-08:00");
}

#[test]
fn deserialize_reads_rfc3339() {
    assert_eq!(deserialize("2024-01-01T09:00:00+00:00"), Ok(utc(NINE)));
    assert_eq!(deserialize("2024-01-01T09:00:00Z"), Ok(utc(NINE)));
    assert_eq!(
        deserialize("2024-01-01T14:30:00.000000007+05:30"),
        Ok(Instant::from_parts(NINE, 7, 19_800).unwrap())
    );
}

#[test]
fn deserialize_refuses_what_is_not_rfc3339() {
    assert_eq!(deserialize(""), Err(TrackError::ParseFailure));
    assert_eq!(deserialize("Clock In"), Err(TrackError::ParseFailure));
    assert_eq!(deserialize("2024-01-01 09:00:00"), Err(TrackError::ParseFailure));
    assert_eq!(deserialize("2024-13-01T09:00:00+00:00"), Err(TrackError::ParseFailure));
}

#[test]
fn deserialize_refuses_a_leap_second() {
    assert_eq!(deserialize("2016-12-31T23:59:60Z"), Err(TrackError::ParseFailure));
}

#[test]
fn instant_of_checks_the_range() {
    assert_eq!(instant_of(Some((NINE, 5, 60))), Ok(Instant::from_parts(NINE, 5, 60).unwrap()));
    assert_eq!(instant_of(Some((NINE, 1_000_000_000, 0))), Err(TrackError::ParseFailure));
    assert_eq!(instant_of(Some((MAX_SECONDS + 1, 0, 0))), Err(TrackError::ParseFailure));
    assert_eq!(instant_of(None), Err(TrackError::ParseFailure));
}

#[test]
fn round_trip_keeps_the_instant() {
    let samples = [
        Instant::from_parts(NINE, 0, 0).unwrap(),
        Instant::from_parts(NINE, 1, 3600).unwrap(),
        Instant::from_parts(NINE, 999_999_999, -3600).unwrap(),
        Instant::from_parts(0, 500_000, 45_900).unwrap(),
        Instant::from_parts(-1, 0, -43_200).unwrap(),
        Instant::from_parts(253_402_300_799, 0, 0).unwrap(),
    ];
    for t in samples {
        assert_eq!(deserialize(&serialize(&t)), Ok(t));
        assert_eq!(stored_text(&t), Ok(serialize(&t)));
    }
}

#[test]
fn stored_text_refuses_what_would_not_read_back() {
    let far = Instant::from_parts(253_402_300_800, 0, 0).unwrap();
    assert_eq!(serialize(&far), "+10000-01-01T00:00:00+00:00");
    assert_eq!(stored_text(&far), Err(TrackError::ParseFailure));
    let odd = Instant::from_parts(NINE, 0, 3_630).unwrap();
    assert_eq!(serialize(&odd), "2024-01-01T10:00:30+01:01");
    assert_eq!(stored_text(&odd), Err(TrackError::ParseFailure));
}

#[test]
fn format_display_shows_local_date_and_time() {
    assert_eq!(format_display(&utc(NINE)), "2024-01-01 09:00:00");
    let east = Instant::from_parts(NINE, 999, 19_800).unwrap();
    assert_eq!(format_display(&east), "2024-01-01 14:30:00");
}

#[test]
fn anchor_places_a_reading_at_its_offset() {
    assert_eq!(anchor(NINE, 0, Some(0)), Ok(utc(NINE)));
    assert_eq!(anchor(NINE, 0, Some(3600)), Ok(Instant::from_parts(NINE - 3600, 0, 3600).unwrap()));
    assert_eq!(anchor(NINE, 0, None), Err(TrackError::ParseFailure));
    assert_eq!(anchor(NINE, 0, Some(86_400)), Err(TrackError::ParseFailure));
    assert_eq!(anchor(i64::MIN, 0, Some(1)), Err(TrackError::ParseFailure));
    assert_eq!(anchor(MAX_SECONDS, 0, Some(-1)), Err(TrackError::ParseFailure));
}

#[test]
fn parse_strict_reads_the_console_pattern() {
    let t = parse_strict("2024-01-01 08:00:00").unwrap();
    assert_eq!(format_display(&t), "2024-01-01 08:00:00");
    assert_eq!(t.seconds() + t.offset() as i64, 1_704_096_000);
    assert_eq!(t.nanos(), 0);
}

#[test]
fn parse_strict_refuses_other_texts() {
    assert_eq!(parse_strict(""), Err(TrackError::ParseFailure));
    assert_eq!(parse_strict("yesterday"), Err(TrackError::ParseFailure));
    assert_eq!(parse_strict("2024-01-01"), Err(TrackError::ParseFailure));
    assert_eq!(parse_strict("2024-01-01T08:00:00+00:00"), Err(TrackError::ParseFailure));
    assert_eq!(parse_strict("2024-02-30 08:00:00"), Err(TrackError::ParseFailure));
    assert_eq!(parse_strict("2024-01-01 08:00:00 trailing"), Err(TrackError::ParseFailure));
}

#[test]
fn parse_strict_takes_the_exact_shape_only() {
    assert_eq!(parse_strict("2024-1-1 8:0:0"), Err(TrackError::ParseFailure));
    assert_eq!(parse_strict(" 2024-01-01 08:00:00"), Err(TrackError::ParseFailure));
    assert_eq!(parse_strict("2024-01-01  08:00:00"), Err(TrackError::ParseFailure));
    assert_eq!(parse_strict("2024-01-01 08:00:00\n"), Err(TrackError::ParseFailure));
    assert_eq!(parse_strict("+2024-01-01 08:00:00"), Err(TrackError::ParseFailure));
    assert_eq!(parse_strict("2024/01/01 08:00:00"), Err(TrackError::ParseFailure));
    assert_eq!(parse_strict("2024-01-01 08:00:60"), Err(TrackError::ParseFailure));
    assert_eq!(parse_strict("2024-01-01 24:00:00"), Err(TrackError::ParseFailure));
    assert!(parse_strict("2024-01-01 23:59:59").is_ok());
}

#[test]
fn display_shape_is_nineteen_characters_in_their_places() {
    assert!(has_display_shape("2024-01-01 08:00:00"));
    assert!(has_display_shape("0000-00-00 00:00:00"));
    assert!(has_display_shape("9999-99-99 99:99:99"));
    assert!(!has_display_shape(""));
    assert!(!has_display_shape("2024-01-01 08:00:0"));
    assert!(!has_display_shape("2024-01-01 08:00:000"));
    assert!(!has_display_shape("2024-01-01T08:00:00"));
    assert!(!has_display_shape("2024-01-01 08.00.00"));
    assert!(!has_display_shape("2024-01-01 08:00:0a"));
    assert!(!has_display_shape("2024-1-01  08:00:00"));
    assert!(!has_display_shape("\u{0662}024-01-01 08:00:00"));
}

#[test]
fn header_row_is_recognised() {
    assert_eq!(header_row(), row(&["Clock In", "Clock Out", "Hours"]));
    assert!(is_header(&header_row()));
    assert!(!is_header(&row(&["Clock In", "Clock Out"])));
    assert!(!is_header(&row(&["Clock In", "Clock Out", "hours"])));
    assert!(!is_header(&row(&[])));
}

#[test]
fn read_row_tells_the_kinds_of_rows_apart() {
    let open = row(&["2024-01-01T09:00:00+00:00"]);
    assert_eq!(read_row(&open, false, true), Ok(Some(ShiftRecord::open(utc(NINE)))));
    assert_eq!(read_row(&open, false, false), Ok(None));
    let closed = row(&["2024-01-01T09:00:00+00:00", "2024-01-01T17:30:00+00:00", "1.00"]);
    let expected = ShiftRecord::closed(utc(NINE), utc(HALF_PAST_FIVE));
    assert_eq!(read_row(&closed, false, false), Ok(Some(expected)));
    assert_eq!(read_row(&closed, true, true).unwrap().unwrap().hours(), 850);
    let two = row(&["2024-01-01T09:00:00+00:00", "2024-01-01T17:30:00+00:00"]);
    assert_eq!(read_row(&two, false, false), Ok(Some(expected)));
    assert_eq!(read_row(&header_row(), true, false), Ok(None));
    assert_eq!(read_row(&header_row(), false, false), Err(TrackError::ParseFailure));
    assert_eq!(read_row(&row(&[]), false, true), Ok(None));
    assert_eq!(read_row(&row(&["a", "b", "c", "d"]), false, true), Ok(None));
    assert_eq!(read_row(&row(&["not a time"]), false, true), Err(TrackError::ParseFailure));
    assert_eq!(read_row(&row(&["not a time"]), false, false), Ok(None));
    let bad_end = row(&["2024-01-01T09:00:00+00:00", "later"]);
    assert_eq!(read_row(&bad_end, false, false), Err(TrackError::ParseFailure));
}

#[test]
fn decode_skips_rows_that_do_not_count() {
    let rows = vec![
        header_row(),
        row(&["2024-01-01T09:00:00+00:00"]),
        row(&["2024-01-01T09:00:00+00:00", "2024-01-01T17:30:00+00:00", "8.50"]),
        row(&["a", "b", "c", "d"]),
        row(&["2024-01-02T09:00:00+00:00"]),
    ];
    let store = decode(&rows).unwrap();
    assert_eq!(store.len(), 2);
    assert_eq!(store.get(0), Some(ShiftRecord::closed(utc(NINE), utc(HALF_PAST_FIVE))));
    assert_eq!(store.get(1), Some(ShiftRecord::open(utc(NINE + 86_400))));
    assert_eq!(decode(&Vec::new()).unwrap().len(), 0);
}

#[test]
fn decode_fails_on_a_timestamp_it_cannot_read() {
    let rows = vec![
        row(&["2024-01-01T09:00:00+00:00", "2024-01-01T17:30:00+00:00", "8.50"]),
        row(&["2024-01-02T09:00:00+00:00", "soon", "1.00"]),
        row(&["2024-01-03T09:00:00+00:00"]),
    ];
    assert_eq!(decode(&rows), Err(TrackError::ParseFailure));
    let header_late = vec![row(&["2024-01-03T09:00:00+00:00"]), header_row()];
    assert_eq!(decode(&header_late), Err(TrackError::ParseFailure));
}

#[test]
fn row_of_writes_one_or_three_fields() {
    assert_eq!(row_of(&ShiftRecord::open(utc(NINE))), Ok(row(&["2024-01-01T09:00:00+00:00"])));
    assert_eq!(
        row_of(&ShiftRecord::closed(utc(NINE), utc(HALF_PAST_FIVE))),
        Ok(row(&["2024-01-01T09:00:00+00:00", "2024-01-01T17:30:00+00:00", "8.50"]))
    );
    let far = Instant::from_parts(253_402_300_800, 0, 0).unwrap();
    assert_eq!(row_of(&ShiftRecord::open(far)), Err(TrackError::ParseFailure));
    assert_eq!(row_of(&ShiftRecord::closed(utc(NINE), far)), Err(TrackError::ParseFailure));
}

#[test]
fn encode_then_decode_gives_the_store_back() {
    let mut store = Store::new();
    store.append_closed(utc(NINE), utc(HALF_PAST_FIVE));
    store.append_closed(Instant::from_parts(NINE + 86_400, 5, 3600).unwrap(), utc(HALF_PAST_FIVE + 86_400));
    store.append_open(utc(NINE + 2 * 86_400));
    let rows = encode(&store).unwrap();
    assert_eq!(rows.len(), 4);
    assert_eq!(rows[0], header_row());
    assert_eq!(rows[3], row(&["2024-01-03T09:00:00+00:00"]));
    assert_eq!(decode(&rows), Ok(store));
}

#[test]
fn rows_of_reads_comma_separated_values() {
    let bytes = b"Clock In,Clock Out,Hours\na,\"b,c\",d\n\nlast\n";
    let rows = rows_of(bytes).unwrap();
    assert_eq!(rows, vec![header_row(), row(&["a", "b,c", "d"]), row(&["last"])]);
    assert_eq!(rows_of(b""), Ok(Vec::new()));
}

#[test]
fn rows_of_refuses_bytes_that_are_no_text() {
    assert_eq!(rows_of(&[b'a', b',', 0xff, 0xfe, b'\n']), Err(TrackError::FileIo));
}

#[test]
fn line_bytes_writes_one_line() {
    assert_eq!(line_bytes(&row(&["a", "b", "c"])), Ok(b"a,b,c\n".to_vec()));
    assert_eq!(line_bytes(&row(&["x,y", "z"])), Ok(b"\"x,y\",z\n".to_vec()));
    assert_eq!(line_bytes(&row(&["one"])), Ok(b"one\n".to_vec()));
}

#[test]
fn table_bytes_writes_the_lines_in_order() {
    let rows = vec![header_row(), row(&["a", "b", "c"]), row(&["open"])];
    assert_eq!(table_bytes(&rows), Ok(b"Clock In,Clock Out,Hours\na,b,c\nopen\n".to_vec()));
    assert_eq!(table_bytes(&Vec::new()), Ok(Vec::new()));
    assert_eq!(rows_of(&table_bytes(&rows).unwrap()), Ok(rows));
}
