use crate::clock::{display_reading, parse_strict, shown_as, spec_display_shape};
use crate::error::TrackError;
use crate::instant::{Instant, InstantView};
use crate::record::{spec_record, Field, RecordView, ShiftRecord};
use crate::report::{
    clock_in_message, clock_out_message, edit_message, spec_clock_in_message,
    spec_clock_out_message, spec_edit_message, spec_summary_lines, summary_lines,
};
use crate::rows::{
    decode, encode, record_storable, records_storable, row_of, spec_decode, spec_encode,
    spec_row_of, storable,
};
use crate::store::{spec_is_open, spec_replace_last};
use crate::summary::{spec_closed, spec_total};
use crate::table::{csv_line, csv_rows, line_bytes, rows_of, spec_rows_of, spec_table_bytes, table_bytes};
use vstd::prelude::*;

verus! {

/// What a command hands back: the bytes for the store and what to say.
#[derive(Debug, PartialEq, Eq)]
pub struct Outcome {
    /// For a clock-in and a clock-out the line to append to the store; for an
    /// edit the whole new content of the store.
    pub bytes: Vec<u8>,
    /// What to say on the console.
    pub message: String,
}

/// The row that a clock-in at `now` appends.
pub open spec fn spec_clock_in_row(now: InstantView) -> Result<Seq<Seq<char>>, TrackError> {
    if storable(now) {
        Ok(spec_row_of(spec_record(now, None)))
    } else {
        Err(TrackError::ParseFailure)
    }
}

/// The row that a clock-in at `now` appends to the store. Fails with
/// `ParseFailure` where the store cannot keep `now`.
pub fn clock_in_row(now: Instant) -> (done: Result<Vec<String>, TrackError>)
    ensures
        match spec_clock_in_row(now@) {
            Ok(row) => done matches Ok(r) && r.deep_view() == row,
            Err(e) => done == Err::<Vec<String>, TrackError>(e),
        },
{
    row_of(&ShiftRecord::open(now))
}

/// Clocks in for `job` at `now`: the line to append to the store of the job,
/// and the message. Fails with `ParseFailure` where the store cannot keep
/// `now`, and succeeds everywhere else.
pub fn clock_in(job: &str, now: Instant) -> (done: Result<Outcome, TrackError>)
    ensures
        match spec_clock_in_row(now@) {
            Ok(row) => done matches Ok(out) && out.bytes@ == csv_line(row) && out.message@
                == spec_clock_in_message(now@, job@),
            Err(e) => done == Err::<Outcome, TrackError>(e),
        },
{
    let row = clock_in_row(now)?;
    let bytes = line_bytes(&row)?;
    Ok(Outcome { bytes, message: clock_in_message(&now, job) })
}

/// The shift that a clock-out at `now` closes in a store with these rows.
pub open spec fn spec_clock_out_record(rows: Seq<Seq<Seq<char>>>, now: InstantView) -> Result<
    RecordView,
    TrackError,
> {
    match spec_decode(rows) {
        Ok(records) => if !spec_is_open(records) {
            Err(TrackError::NoOpenShift)
        } else if !record_storable(spec_record(records.last().start, Some(now))) {
            Err(TrackError::ParseFailure)
        } else {
            Ok(spec_record(records.last().start, Some(now)))
        },
        Err(e) => Err(e),
    }
}

/// The closed shift that a clock-out at `now` adds to a store with these
/// rows: from the clock-in of the open shift to `now`. Fails with the
/// failure of reading the rows; with `NoOpenShift` where the store does not
/// end with an open shift; with `ParseFailure` where the store cannot keep
/// the closed shift.
pub fn clock_out_record(rows: &Vec<Vec<String>>, now: Instant) -> (done: Result<
    ShiftRecord,
    TrackError,
>)
    ensures
        match spec_clock_out_record(rows.deep_view(), now@) {
            Ok(r) => done matches Ok(record) && record@ == r,
            Err(e) => done == Err::<ShiftRecord, TrackError>(e),
        },
{
    let mut store = decode(rows)?;
    let record = store.clock_out(now)?;
    match row_of(&record) {
        Ok(_) => Ok(record),
        Err(e) => Err(e),
    }
}

/// Clocks out at `now` on the store with these bytes: the line to append for
/// the closed shift, and the message with its hours. Fails as reading the
/// bytes and `clock_out_record` do, and succeeds everywhere else.
pub fn clock_out(bytes: &[u8], now: Instant) -> (done: Result<Outcome, TrackError>)
    ensures
        match spec_rows_of(csv_rows(bytes@)) {
            Ok(rows) => match spec_clock_out_record(rows, now@) {
                Ok(r) => done matches Ok(out) && out.bytes@ == csv_line(spec_row_of(r))
                    && out.message@ == spec_clock_out_message(now@, r.hours),
                Err(e) => done == Err::<Outcome, TrackError>(e),
            },
            Err(e) => done == Err::<Outcome, TrackError>(e),
        },
{
    let rows = rows_of(bytes)?;
    let record = clock_out_record(&rows, now)?;
    let row = row_of(&record)?;
    let line = line_bytes(&row)?;
    Ok(Outcome { bytes: line, message: clock_out_message(&now, record.hours()) })
}

/// The rows of a store after `field` of its last record was set to `value`.
pub open spec fn spec_edit_rows(rows: Seq<Seq<Seq<char>>>, field: Field, value: InstantView) -> Result<
    Seq<Seq<Seq<char>>>,
    TrackError,
> {
    match spec_decode(rows) {
        Ok(records) => if records.len() == 0 {
            Err(TrackError::EmptyStore)
        } else if !records_storable(spec_replace_last(records, field, value)) {
            Err(TrackError::ParseFailure)
        } else {
            Ok(spec_encode(spec_replace_last(records, field, value)))
        },
        Err(e) => Err(e),
    }
}

/// Rewrites a store with these rows: `field` of the last record is set to
/// `value`, the hours of every closed record are computed from its
/// boundaries, and the rows are written from scratch with the header first.
/// Fails with the failure of reading the rows; with `EmptyStore` where they
/// hold no record; with `ParseFailure` where the store cannot keep a record.
pub fn edit_rows(rows: &Vec<Vec<String>>, field: Field, value: Instant) -> (done: Result<
    Vec<Vec<String>>,
    TrackError,
>)
    ensures
        match spec_edit_rows(rows.deep_view(), field, value@) {
            Ok(after) => done matches Ok(r) && r.deep_view() == after,
            Err(e) => done == Err::<Vec<Vec<String>>, TrackError>(e),
        },
{
    let mut store = decode(rows)?;
    match store.replace_last(field, value) {
        Ok(_) => {},
        Err(e) => {
            return Err(e);
        },
    }
    encode(&store)
}

/// Sets `field` of the last record of the store with these bytes to
/// `value`: the whole new content of the store, and the message. Fails as
/// reading the bytes and `edit_rows` do, and succeeds everywhere else.
pub fn replace_last(bytes: &[u8], field: Field, value: Instant) -> (done: Result<
    Outcome,
    TrackError,
>)
    ensures
        match spec_rows_of(csv_rows(bytes@)) {
            Ok(rows) => match spec_edit_rows(rows, field, value@) {
                Ok(after) => done matches Ok(out) && out.bytes@ == spec_table_bytes(after)
                    && out.message@ == spec_edit_message(field, value@),
                Err(e) => done == Err::<Outcome, TrackError>(e),
            },
            Err(e) => done == Err::<Outcome, TrackError>(e),
        },
{
    let rows = rows_of(bytes)?;
    let after = edit_rows(&rows, field, value)?;
    let content = table_bytes(&after)?;
    Ok(Outcome { bytes: content, message: edit_message(field, &value) })
}

/// Whether an edit of the store with these bytes succeeds with this content
/// and this message.
pub open spec fn edit_gives(
    bytes: Seq<u8>,
    field: Field,
    value: InstantView,
    content: Seq<u8>,
    message: Seq<char>,
) -> bool {
    match spec_rows_of(csv_rows(bytes)) {
        Ok(rows) => match spec_edit_rows(rows, field, value) {
            Ok(after) => content == spec_table_bytes(after) && message == spec_edit_message(
                field,
                value,
            ),
            Err(_) => false,
        },
        Err(_) => false,
    }
}

/// Whether an edit of the store with these bytes fails with `e`.
pub open spec fn edit_fails(
    bytes: Seq<u8>,
    field: Field,
    value: InstantView,
    e: TrackError,
) -> bool {
    match spec_rows_of(csv_rows(bytes)) {
        Ok(rows) => match spec_edit_rows(rows, field, value) {
            Ok(_) => false,
            Err(f) => e == f,
        },
        Err(f) => e == f,
    }
}

/// Sets the clock-in of the last shift to the local time that `text` names
/// as `YYYY-MM-DD HH:MM:SS`. The text is parsed before the store is read: a
/// text that does not follow the pattern fails with `ParseFailure` whatever
/// the bytes hold.
pub fn edit_start(bytes: &[u8], text: &str) -> (done: Result<Outcome, TrackError>)
    ensures
        !spec_display_shape(text@) ==> done == Err::<Outcome, TrackError>(
            TrackError::ParseFailure,
        ),
        display_reading(text@).is_none() ==> done == Err::<Outcome, TrackError>(
            TrackError::ParseFailure,
        ),
        done matches Ok(out) ==> exists|value: InstantView|
            shown_as(text@, value) && #[trigger] edit_gives(
                bytes@,
                Field::Start,
                value,
                out.bytes@,
                out.message@,
            ),
        done matches Err(e) ==> e == TrackError::ParseFailure || exists|value: InstantView|
            shown_as(text@, value) && #[trigger] edit_fails(bytes@, Field::Start, value, e),
{
    let value = parse_strict(text)?;
    let done = replace_last(bytes, Field::Start, value);
    proof {
        if done.is_ok() {
            let out = done.unwrap();
            assert(edit_gives(bytes@, Field::Start, value@, out.bytes@, out.message@));
        } else {
            assert(edit_fails(bytes@, Field::Start, value@, done.unwrap_err()));
        }
    }
    done
}

/// Sets the clock-out of the last shift to the local time that `text` names
/// as `YYYY-MM-DD HH:MM:SS`; an open shift is closed by it. The text is
/// parsed before the store is read.
pub fn edit_stop(bytes: &[u8], text: &str) -> (done: Result<Outcome, TrackError>)
    ensures
        !spec_display_shape(text@) ==> done == Err::<Outcome, TrackError>(
            TrackError::ParseFailure,
        ),
        display_reading(text@).is_none() ==> done == Err::<Outcome, TrackError>(
            TrackError::ParseFailure,
        ),
        done matches Ok(out) ==> exists|value: InstantView|
            shown_as(text@, value) && #[trigger] edit_gives(
                bytes@,
                Field::End,
                value,
                out.bytes@,
                out.message@,
            ),
        done matches Err(e) ==> e == TrackError::ParseFailure || exists|value: InstantView|
            shown_as(text@, value) && #[trigger] edit_fails(bytes@, Field::End, value, e),
{
    let value = parse_strict(text)?;
    let done = replace_last(bytes, Field::End, value);
    proof {
        if done.is_ok() {
            let out = done.unwrap();
            assert(edit_gives(bytes@, Field::End, value@, out.bytes@, out.message@));
        } else {
            assert(edit_fails(bytes@, Field::End, value@, done.unwrap_err()));
        }
    }
    done
}

/// The lines of the summary of a store with these rows.
pub open spec fn spec_summary_of(rows: Seq<Seq<Seq<char>>>) -> Result<
    Seq<Seq<char>>,
    TrackError,
> {
    match spec_decode(rows) {
        Ok(records) => Ok(
            spec_summary_lines(spec_closed(records), spec_total(spec_closed(records))),
        ),
        Err(e) => Err(e),
    }
}

/// The lines that the summary of a store with these bytes prints: a line for
/// each closed shift in the order of the store, and the total of the hours
/// shown. A store without bytes gives the head, the rules and a total of
/// `0.00`.
pub fn summary(bytes: &[u8]) -> (done: Result<Vec<String>, TrackError>)
    ensures
        match spec_rows_of(csv_rows(bytes@)) {
            Ok(rows) => match spec_summary_of(rows) {
                Ok(lines) => done matches Ok(l) && l.deep_view() == lines,
                Err(e) => done == Err::<Vec<String>, TrackError>(e),
            },
            Err(e) => done == Err::<Vec<String>, TrackError>(e),
        },
{
    let rows = rows_of(bytes)?;
    let store = decode(&rows)?;
    let shown = store.summary();
    Ok(summary_lines(&shown))
}

} // verus!
