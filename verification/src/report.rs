use crate::clock::{format_display, display_text, serialize};
use crate::decimal::{hundredths_text, spec_hundredths_text};
use crate::instant::{Instant, InstantView};
use crate::record::{Field, RecordView, ShiftRecord};
use crate::rows::spec_stored;
use crate::summary::Summary;
use vstd::prelude::*;
use vstd::string::StringExecFns;

verus! {

/// The job that a command is for where none was named.
pub fn job_label<'a>(job: Option<&'a str>) -> (label: &'a str)
    ensures
        label@ == match job {
            Some(name) => name@,
            None => "GenAI"@,
        },
{
    match job {
        Some(name) => name,
        None => "GenAI",
    }
}

/// The name of the file that holds the store of `job`.
pub fn store_file_name(job: &str) -> (name: String)
    ensures
        name@ == job@ + "_hours_records.csv"@,
{
    let mut name = String::from_str(job);
    name.append("_hours_records.csv");
    name
}

/// The console text of an instant.
pub open spec fn spec_display(t: InstantView) -> Seq<char> {
    display_text(t.seconds, t.nanos, t.offset)
}

/// What is said after a clock-in.
pub open spec fn spec_clock_in_message(now: InstantView, job: Seq<char>) -> Seq<char> {
    "Clocked in at "@ + spec_display(now) + " for "@ + job
}

/// What is said after a clock-in at `now` for `job`.
pub fn clock_in_message(now: &Instant, job: &str) -> (text: String)
    ensures
        text@ == spec_clock_in_message(now@, job@),
{
    let mut text = String::from_str("Clocked in at ");
    text.append(format_display(now).as_str());
    text.append(" for ");
    text.append(job);
    text
}

/// What is said after a clock-out.
pub open spec fn spec_clock_out_message(now: InstantView, hours: int) -> Seq<char> {
    "Clocked out at: "@ + spec_display(now) + "\nTotal hours worked: "@ + spec_hundredths_text(
        hours,
    )
}

/// What is said after a clock-out at `now` that closed a shift of `hours`
/// hundredths of an hour.
pub fn clock_out_message(now: &Instant, hours: i64) -> (text: String)
    ensures
        text@ == spec_clock_out_message(now@, hours as int),
{
    let mut text = String::from_str("Clocked out at: ");
    text.append(format_display(now).as_str());
    text.append("\nTotal hours worked: ");
    text.append(hundredths_text(hours as i128).as_str());
    text
}

/// What is said after an edit.
pub open spec fn spec_edit_message(field: Field, value: InstantView) -> Seq<char> {
    match field {
        Field::Start => "Updated start time to: "@ + spec_display(value),
        Field::End => "Updated stop time to: "@ + spec_display(value),
    }
}

/// What is said after `field` of the last shift was set to `value`.
pub fn edit_message(field: Field, value: &Instant) -> (text: String)
    ensures
        text@ == spec_edit_message(field, value@),
{
    let mut text = match field {
        Field::Start => String::from_str("Updated start time to: "),
        Field::End => String::from_str("Updated stop time to: "),
    };
    text.append(format_display(value).as_str());
    text
}

/// The line of the summary for one closed shift: clock-in, clock-out and
/// hours, with tabs in between. An open shift has no line: it gives the
/// clock-in alone.
pub open spec fn spec_shift_line(r: RecordView) -> Seq<char> {
    match r.end {
        Some(end) => spec_stored(r.start) + "\t"@ + spec_stored(end) + "\t"@
            + spec_hundredths_text(r.hours),
        None => spec_stored(r.start),
    }
}

/// The line of the summary for `record`.
pub fn shift_line(record: &ShiftRecord) -> (text: String)
    ensures
        text@ == spec_shift_line(record@),
{
    let start = record.start();
    let mut text = serialize(&start);
    match record.end() {
        Some(end) => {
            text.append("\t");
            text.append(serialize(&end).as_str());
            text.append("\t");
            text.append(hundredths_text(record.hours() as i128).as_str());
        },
        None => {},
    }
    text
}

/// The line above the shifts of a summary.
pub open spec fn spec_summary_head() -> Seq<char> {
    "Start Time\t\t\tEnd Time\t\t\tHours"@
}

/// The rule between the parts of a summary.
pub open spec fn spec_summary_rule() -> Seq<char> {
    "------------------------------------------------------------"@
}

/// The last line of a summary.
pub open spec fn spec_total_line(total: int) -> Seq<char> {
    "Total Hours Worked: "@ + spec_hundredths_text(total)
}

/// The lines of a summary: head and rule, a line for each shift, rule and
/// total.
pub open spec fn spec_summary_lines(shifts: Seq<RecordView>, total: int) -> Seq<Seq<char>> {
    seq![spec_summary_head(), spec_summary_rule()] + shifts.map_values(
        |r: RecordView| spec_shift_line(r),
    ) + seq![spec_summary_rule(), spec_total_line(total)]
}

/// The lines that a summary prints, from the first to the last.
pub fn summary_lines(summary: &Summary) -> (lines: Vec<String>)
    ensures
        lines.deep_view() == spec_summary_lines(summary@, summary.total as int),
{
    let mut lines: Vec<String> = Vec::new();
    lines.push(String::from_str("Start Time\t\t\tEnd Time\t\t\tHours"));
    lines.push(String::from_str("------------------------------------------------------------"));
    let ghost head = seq![spec_summary_head(), spec_summary_rule()];
    assert(lines.deep_view() =~= head);
    let n = summary.shifts.len();
    let mut i: usize = 0;
    while i < n
        invariant
            i <= n,
            n == summary.shifts.len(),
            head == seq![spec_summary_head(), spec_summary_rule()],
            lines.deep_view() == head + summary@.take(i as int).map_values(
                |r: RecordView| spec_shift_line(r),
            ),
        decreases n - i,
    {
        let ghost before = lines.deep_view();
        let line = shift_line(&summary.shifts[i]);
        lines.push(line);
        proof {
            assert(lines.deep_view() =~= before.push(line@));
            assert(summary@.take(i + 1) =~= summary@.take(i as int).push(summary@[i as int]));
            assert(lines.deep_view() =~= head + summary@.take(i + 1).map_values(
                |r: RecordView| spec_shift_line(r),
            ));
        }
        i = i + 1;
    }
    assert(summary@.take(n as int) =~= summary@);
    let ghost body = lines.deep_view();
    let mut last = String::from_str("Total Hours Worked: ");
    last.append(hundredths_text(summary.total).as_str());
    lines.push(String::from_str("------------------------------------------------------------"));
    lines.push(last);
    assert(lines.deep_view() =~= body + seq![spec_summary_rule(), spec_total_line(
        summary.total as int,
    )]);
    lines
}

} // verus!
