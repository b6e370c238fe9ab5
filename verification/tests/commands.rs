use hour_tracker::clock::{format_display, parse_strict};
use hour_tracker::commands::{
    clock_in, clock_in_row, clock_out, clock_out_record, edit_rows, edit_start, edit_stop,
    replace_last, summary,
};
use hour_tracker::error::TrackError;
use hour_tracker::instant::Instant;
use hour_tracker::record::{Field, ShiftRecord};
use hour_tracker::report::{
    clock_in_message, clock_out_message, edit_message, job_label, shift_line, store_file_name,
    summary_lines,
};
use hour_tracker::rows::decode;
use hour_tracker::store::Store;
use hour_tracker::table::rows_of;

const EIGHT: i64 = 1_704_096_000;
const NINE: i64 = 1_704_099_600;
const FIVE_PM: i64 = 1_704_128_400;
const HALF_PAST_FIVE: i64 = 1_704_130_200;
const HEAD: &str = "Start Time\t\t\tEnd Time\t\t\tHours";
const RULE: &str = "------------------------------------------------------------";

fn utc(seconds: i64) -> Instant {
    Instant::from_parts(seconds, 0, 0).unwrap()
}

#[test]
fn clock_in_appends_an_open_row() {
    let out = clock_in("acme", utc(NINE)).unwrap();
    assert_eq!(out.bytes, b"2024-01-01T09:00:00+00:00\n".to_vec());
    assert_eq!(out.message, "Clocked in at 2024-01-01 09:00:00 for acme");
    assert_eq!(clock_in_row(utc(NINE)), Ok(vec!["2024-01-01T09:00:00+00:00".to_string()]));
}

#[test]
fn clock_in_then_clock_out_stores_eight_and_a_half_hours() {
    let mut file = Vec::new();
    file.extend(clock_in("acme", utc(NINE)).unwrap().bytes);
    let out = clock_out(&file, utc(HALF_PAST_FIVE)).unwrap();
    assert_eq!(out.bytes, b"2024-01-01T09:00:00+00:00,2024-01-01T17:30:00+00:00,8.50\n".to_vec());
    assert_eq!(out.message, "Clocked out at: 2024-01-01 17:30:00\nTotal hours worked: 8.50");
    file.extend(out.bytes);
    let store = decode(&rows_of(&file).unwrap()).unwrap();
    assert_eq!(store.len(), 1);
    assert_eq!(store.get(0).unwrap().hours(), 850);
}

#[test]
fn edit_start_then_clock_out_stores_nine_hours() {
    let file = b"2024-01-01T09:00:00+00:00\n".to_vec();
    let edited = edit_start(&file, "2024-01-01 08:00:00").unwrap();
    assert_eq!(edited.message, "Updated start time to: 2024-01-01 08:00:00");
    let mut file = edited.bytes;
    let five = parse_strict("2024-01-01 17:00:00").unwrap();
    let out = clock_out(&file, five).unwrap();
    assert!(out.bytes.ends_with(b",9.00\n"));
    file.extend(out.bytes);
    let store = decode(&rows_of(&file).unwrap()).unwrap();
    assert_eq!(store.len(), 1);
    let closed = store.get(0).unwrap();
    assert_eq!(format_display(&closed.start()), "2024-01-01 08:00:00");
    assert_eq!(format_display(&closed.end().unwrap()), "2024-01-01 17:00:00");
    assert_eq!(closed.hours(), 900);
}

#[test]
fn edit_of_one_open_row_in_utc() {
    let file = b"2024-01-01T09:00:00+00:00\n".to_vec();
    let edited = replace_last(&file, Field::Start, utc(EIGHT)).unwrap();
    assert_eq!(edited.bytes, b"Clock In,Clock Out,Hours\n2024-01-01T08:00:00+00:00\n".to_vec());
    let out = clock_out(&edited.bytes, utc(FIVE_PM)).unwrap();
    assert_eq!(out.bytes, b"2024-01-01T08:00:00+00:00,2024-01-01T17:00:00+00:00,9.00\n".to_vec());
}

#[test]
fn summary_of_empty_store_prints_head_and_total() {
    assert_eq!(
        summary(b""),
        Ok(vec![HEAD.to_string(), RULE.to_string(), RULE.to_string(), "Total Hours Worked: 0.00".to_string()])
    );
}

#[test]
fn summary_lists_closed_shifts_in_order() {
    let file = b"Clock In,Clock Out,Hours\n\
2024-01-01T09:00:00+00:00,2024-01-01T17:30:00+00:00,8.50\n\
2024-01-02T09:00:00+00:00\n\
2024-01-02T09:00:00+00:00,2024-01-02T17:00:00+00:00,8.00\n\
2024-01-03T09:00:00+00:00\n";
    let lines = summary(file).unwrap();
    assert_eq!(
        lines,
        vec![
            HEAD.to_string(),
            RULE.to_string(),
            "2024-01-01T09:00:00+00:00\t2024-01-01T17:30:00+00:00\t8.50".to_string(),
            "2024-01-02T09:00:00+00:00\t2024-01-02T17:00:00+00:00\t8.00".to_string(),
            RULE.to_string(),
            "Total Hours Worked: 16.50".to_string(),
        ]
    );
}

#[test]
fn summary_fails_on_a_timestamp_it_cannot_read() {
    assert_eq!(summary(b"yesterday,today,1.00\n"), Err(TrackError::ParseFailure));
    assert_eq!(summary(&[0xff, b'\n']), Err(TrackError::FileIo));
}

#[test]
fn clock_out_needs_an_open_shift_at_the_end() {
    assert_eq!(clock_out(b"", utc(FIVE_PM)), Err(TrackError::NoOpenShift));
    let closed = b"2024-01-01T09:00:00+00:00\n2024-01-01T09:00:00+00:00,2024-01-01T17:30:00+00:00,8.50\n";
    assert_eq!(clock_out(closed, utc(FIVE_PM)), Err(TrackError::NoOpenShift));
    let header_only = b"Clock In,Clock Out,Hours\n";
    assert_eq!(clock_out(header_only, utc(FIVE_PM)), Err(TrackError::NoOpenShift));
}

#[test]
fn clock_out_record_closes_the_last_clock_in() {
    let rows = vec![
        vec!["2024-01-01T09:00:00+00:00".to_string()],
        vec!["2024-01-01T08:00:00+00:00".to_string()],
    ];
    assert_eq!(clock_out_record(&rows, utc(FIVE_PM)), Ok(ShiftRecord::closed(utc(EIGHT), utc(FIVE_PM))));
    assert_eq!(clock_out_record(&Vec::new(), utc(FIVE_PM)), Err(TrackError::NoOpenShift));
    let far = Instant::from_parts(253_402_300_800, 0, 0).unwrap();
    assert_eq!(clock_out_record(&rows, far), Err(TrackError::ParseFailure));
}

#[test]
fn edit_on_a_store_without_records_fails() {
    assert_eq!(replace_last(b"", Field::Start, utc(NINE)), Err(TrackError::EmptyStore));
    assert_eq!(replace_last(b"Clock In,Clock Out,Hours\n", Field::End, utc(NINE)), Err(TrackError::EmptyStore));
    assert_eq!(edit_start(b"", "2024-01-01 08:00:00"), Err(TrackError::EmptyStore));
    assert_eq!(edit_stop(b"a,b,c,d\n", "2024-01-01 08:00:00"), Err(TrackError::EmptyStore));
    assert_eq!(edit_rows(&Vec::new(), Field::Start, utc(NINE)), Err(TrackError::EmptyStore));
}

#[test]
fn edit_refuses_a_text_off_the_pattern_before_it_reads_the_store() {
    assert_eq!(edit_start(b"", "eight o'clock"), Err(TrackError::ParseFailure));
    assert_eq!(edit_stop(&[0xff], "2024-01-01"), Err(TrackError::ParseFailure));
    assert_eq!(edit_stop(&[0xff, b'\n'], "2024-01-01 08:00:00"), Err(TrackError::FileIo));
}

#[test]
fn edit_refuses_a_text_that_is_not_written_out_in_full() {
    let file = b"2024-01-01T09:00:00+00:00\n";
    assert_eq!(edit_start(file, "2024-1-1 8:0:0"), Err(TrackError::ParseFailure));
    assert_eq!(edit_stop(file, " 2024-01-01 17:00:00"), Err(TrackError::ParseFailure));
    assert!(edit_stop(file, "2024-01-01 17:00:00").is_ok());
}

#[test]
fn edit_rewrites_the_store_with_header_and_new_hours() {
    let file = b"2024-01-01T09:00:00+00:00,2024-01-01T17:30:00+00:00,1.23\n\
bad,row,of,four\n\
2024-01-02T09:00:00+00:00,2024-01-02T17:00:00+00:00\n";
    let out = replace_last(file, Field::End, utc(HALF_PAST_FIVE + 86_400)).unwrap();
    assert_eq!(
        String::from_utf8(out.bytes).unwrap(),
        "Clock In,Clock Out,Hours\n\
2024-01-01T09:00:00+00:00,2024-01-01T17:30:00+00:00,8.50\n\
2024-01-02T09:00:00+00:00,2024-01-02T17:30:00+00:00,8.50\n"
    );
    assert_eq!(out.message, "Updated stop time to: 2024-01-02 17:30:00");
}

#[test]
fn edit_stop_closes_the_open_row() {
    let file = b"Clock In,Clock Out,Hours\n2024-01-01T09:00:00+00:00\n";
    let out = replace_last(file, Field::End, utc(FIVE_PM)).unwrap();
    assert_eq!(
        String::from_utf8(out.bytes).unwrap(),
        "Clock In,Clock Out,Hours\n2024-01-01T09:00:00+00:00,2024-01-01T17:00:00+00:00,8.00\n"
    );
}

#[test]
fn edit_rows_leaves_earlier_records_alone() {
    let rows = vec![
        vec!["2024-01-01T09:00:00+00:00".to_string(), "2024-01-01T17:30:00+00:00".to_string()],
        vec!["2024-01-02T09:00:00+00:00".to_string()],
    ];
    let after = edit_rows(&rows, Field::Start, utc(EIGHT + 86_400)).unwrap();
    let store = decode(&after).unwrap();
    assert_eq!(store.len(), 2);
    assert_eq!(store.get(0), Some(ShiftRecord::closed(utc(NINE), utc(HALF_PAST_FIVE))));
    assert_eq!(store.get(1), Some(ShiftRecord::open(utc(EIGHT + 86_400))));
}

#[test]
fn messages_and_names() {
    assert_eq!(job_label(None), "GenAI");
    assert_eq!(job_label(Some("acme")), "acme");
    assert_eq!(store_file_name("acme"), "acme_hours_records.csv");
    assert_eq!(clock_in_message(&utc(NINE), "acme"), "Clocked in at 2024-01-01 09:00:00 for acme");
    assert_eq!(
        clock_out_message(&utc(FIVE_PM), -25),
        "Clocked out at: 2024-01-01 17:00:00\nTotal hours worked: -0.25"
    );
    assert_eq!(edit_message(Field::Start, &utc(EIGHT)), "Updated start time to: 2024-01-01 08:00:00");
    assert_eq!(edit_message(Field::End, &utc(FIVE_PM)), "Updated stop time to: 2024-01-01 17:00:00");
    assert_eq!(shift_line(&ShiftRecord::open(utc(NINE))), "2024-01-01T09:00:00+00:00");
}

#[test]
fn summary_lines_of_a_store() {
    let mut store = Store::new();
    store.append_closed(utc(NINE), utc(HALF_PAST_FIVE));
    let lines = summary_lines(&store.summary());
    assert_eq!(lines.len(), 5);
    assert_eq!(lines[2], "2024-01-01T09:00:00+00:00\t2024-01-01T17:30:00+00:00\t8.50");
    assert_eq!(lines[4], "Total Hours Worked: 8.50");
}
