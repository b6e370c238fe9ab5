use crate::clock::{deserialize, reads_back, rfc3339_instant, rfc3339_text, spec_instant_of, stored_text};
use crate::decimal::{hundredths_text, spec_hundredths_text};
use crate::error::TrackError;
use crate::instant::InstantView;
use crate::record::{spec_record, RecordView, ShiftRecord};
use crate::store::{spec_is_open, Store};
use vstd::prelude::*;
use vstd::string::StringExecFns;

verus! {

/// The header that a rewritten store begins with: the names of the three
/// columns of a closed shift.
pub open spec fn spec_header() -> Seq<Seq<char>> {
    seq!["Clock In"@, "Clock Out"@, "Hours"@]
}

/// The header row.
pub fn header_row() -> (row: Vec<String>)
    ensures
        row.deep_view() == spec_header(),
{
    let mut row: Vec<String> = Vec::new();
    row.push(String::from_str("Clock In"));
    row.push(String::from_str("Clock Out"));
    row.push(String::from_str("Hours"));
    assert(row.deep_view() =~= spec_header());
    row
}

/// Whether `row` is the header row.
pub fn is_header(row: &Vec<String>) -> (yes: bool)
    ensures
        yes == (row.deep_view() == spec_header()),
{
    if row.len() != 3 {
        assert(row.deep_view().len() != spec_header().len());
        return false;
    }
    let first = String::from_str("Clock In");
    let second = String::from_str("Clock Out");
    let third = String::from_str("Hours");
    let yes = row[0] == first && row[1] == second && row[2] == third;
    proof {
        let fields = row.deep_view();
        assert(fields[0] == row[0]@ && fields[1] == row[1]@ && fields[2] == row[2]@);
        assert(spec_header()[0] == "Clock In"@ && spec_header()[1] == "Clock Out"@
            && spec_header()[2] == "Hours"@);
        if yes {
            assert(fields =~= spec_header());
        }
    }
    yes
}

/// The instant that a stored field denotes.
pub open spec fn spec_field_instant(text: Seq<char>) -> Result<InstantView, TrackError> {
    spec_instant_of(rfc3339_instant(text))
}

/// What a row of a store stands for. The first row is left out where it is
/// the header. A row of one field is the clock-in of an open shift where it
/// is the last row, and left out elsewhere: a later row has taken its place.
/// A row of two or three fields is a closed shift; its hours are computed
/// from its boundaries, whatever a third field holds. A row of any other
/// length is left out. A row that counts and holds a timestamp that cannot be
/// read is a `ParseFailure`.
pub open spec fn spec_row_read(row: Seq<Seq<char>>, first: bool, last: bool) -> Result<
    Option<RecordView>,
    TrackError,
> {
    if first && row == spec_header() {
        Ok(None)
    } else if row.len() == 1 {
        if last {
            match spec_field_instant(row[0]) {
                Ok(start) => Ok(Some(spec_record(start, None))),
                Err(e) => Err(e),
            }
        } else {
            Ok(None)
        }
    } else if row.len() == 2 || row.len() == 3 {
        match spec_field_instant(row[0]) {
            Ok(start) => match spec_field_instant(row[1]) {
                Ok(end) => Ok(Some(spec_record(start, Some(end)))),
                Err(e) => Err(e),
            },
            Err(e) => Err(e),
        }
    } else {
        Ok(None)
    }
}

/// The record that `row` stands for, `None` where the row is left out.
pub fn read_row(row: &Vec<String>, first: bool, last: bool) -> (done: Result<
    Option<ShiftRecord>,
    TrackError,
>)
    ensures
        match spec_row_read(row.deep_view(), first, last) {
            Ok(Some(r)) => done matches Ok(Some(record)) && record@ == r,
            Ok(None) => done matches Ok(None),
            Err(e) => done matches Err(f) && f == e,
        },
{
    let n = row.len();
    proof {
        let fields = row.deep_view();
        assert(fields.len() == n);
        assert(n >= 1 ==> fields[0] == row[0]@);
        assert(n >= 2 ==> fields[1] == row[1]@);
    }
    if first && is_header(row) {
        Ok(None)
    } else if n == 1 {
        if last {
            let start = deserialize(row[0].as_str())?;
            Ok(Some(ShiftRecord::open(start)))
        } else {
            Ok(None)
        }
    } else if n == 2 || n == 3 {
        let start = deserialize(row[0].as_str())?;
        let end = deserialize(row[1].as_str())?;
        Ok(Some(ShiftRecord::closed(start, end)))
    } else {
        Ok(None)
    }
}

/// The records that the first `n` rows stand for, or the failure of the
/// first row among them that cannot be read.
pub open spec fn spec_decode_prefix(rows: Seq<Seq<Seq<char>>>, n: int) -> Result<
    Seq<RecordView>,
    TrackError,
>
    decreases n,
{
    if n <= 0 {
        Ok(Seq::<RecordView>::empty())
    } else {
        match spec_decode_prefix(rows, n - 1) {
            Ok(records) => match spec_row_read(rows[n - 1], n == 1, n == rows.len()) {
                Ok(Some(r)) => Ok(records.push(r)),
                Ok(None) => Ok(records),
                Err(e) => Err(e),
            },
            Err(e) => Err(e),
        }
    }
}

/// The records that the rows of a store stand for.
pub open spec fn spec_decode(rows: Seq<Seq<Seq<char>>>) -> Result<Seq<RecordView>, TrackError> {
    spec_decode_prefix(rows, rows.len() as int)
}

/// Before the last row no record that was read is open.
proof fn lemma_prefix_closed(rows: Seq<Seq<Seq<char>>>, n: int)
    requires
        0 <= n < rows.len(),
    ensures
        spec_decode_prefix(rows, n) matches Ok(records) ==> !spec_is_open(records) && forall|i: int|
            0 <= i < records.len() ==> (#[trigger] records[i]).end.is_some(),
    decreases n,
{
    if n > 0 {
        lemma_prefix_closed(rows, n - 1);
    }
}

/// Reads all rows of a store in their order.
pub fn decode(rows: &Vec<Vec<String>>) -> (done: Result<Store, TrackError>)
    ensures
        match spec_decode(rows.deep_view()) {
            Ok(records) => done matches Ok(store) && store@ == records,
            Err(e) => done matches Err(f) && f == e,
        },
{
    let mut store = Store::new();
    let n = rows.len();
    let mut i: usize = 0;
    while i < n
        invariant
            i <= n,
            n == rows.len(),
            spec_decode_prefix(rows.deep_view(), i as int) == Ok::<Seq<RecordView>, TrackError>(
                store@,
            ),
        decreases n - i,
    {
        proof {
            assert(rows.deep_view()[i as int] == rows[i as int].deep_view());
            lemma_prefix_closed(rows.deep_view(), i as int);
        }
        match read_row(&rows[i], i == 0, i + 1 == n) {
            Ok(Some(record)) => {
                store.append(record);
            },
            Ok(None) => {},
            Err(e) => {
                proof {
                    lemma_decode_fails(rows.deep_view(), i + 1, n as int);
                }
                return Err(e);
            },
        }
        i = i + 1;
    }
    Ok(store)
}

/// Once a row could not be read, no later row mends it.
proof fn lemma_decode_fails(rows: Seq<Seq<Seq<char>>>, n: int, m: int)
    requires
        0 <= n <= m,
        spec_decode_prefix(rows, n).is_err(),
    ensures
        spec_decode_prefix(rows, m) == spec_decode_prefix(rows, n),
    decreases m - n,
{
    if n < m {
        lemma_decode_fails(rows, n, m - 1);
    }
}

/// Whether the store can keep `t`: its stored text reads back as `t`.
pub open spec fn storable(t: InstantView) -> bool {
    reads_back(rfc3339_text(t.seconds, t.nanos, t.offset), t)
}

/// Whether the store can keep both boundaries of `r`.
pub open spec fn record_storable(r: RecordView) -> bool {
    storable(r.start) && (r.end matches Some(e) ==> storable(e))
}

/// Whether the store can keep all of `records`.
pub open spec fn records_storable(records: Seq<RecordView>) -> bool {
    forall|i: int| 0 <= i < records.len() ==> record_storable(#[trigger] records[i])
}

/// The stored text of an instant.
pub open spec fn spec_stored(t: InstantView) -> Seq<char> {
    rfc3339_text(t.seconds, t.nanos, t.offset)
}

/// The row of a record: the clock-in alone while the shift is open; clock-in,
/// clock-out and hours with two decimals once it is closed.
pub open spec fn spec_row_of(r: RecordView) -> Seq<Seq<char>> {
    match r.end {
        Some(end) => seq![spec_stored(r.start), spec_stored(end), spec_hundredths_text(r.hours)],
        None => seq![spec_stored(r.start)],
    }
}

/// The row of `record`. Fails with `ParseFailure` where the store cannot
/// keep one of its boundaries.
pub fn row_of(record: &ShiftRecord) -> (done: Result<Vec<String>, TrackError>)
    ensures
        record_storable(record@) ==> (done matches Ok(row) && row.deep_view() == spec_row_of(
            record@,
        )),
        !record_storable(record@) ==> done == Err::<Vec<String>, TrackError>(
            TrackError::ParseFailure,
        ),
{
    let mut row: Vec<String> = Vec::new();
    let start = record.start();
    let start_text = stored_text(&start)?;
    row.push(start_text);
    match record.end() {
        Some(end) => {
            let end_text = stored_text(&end)?;
            row.push(end_text);
            row.push(hundredths_text(record.hours() as i128));
        },
        None => {},
    }
    assert(row.deep_view() =~= spec_row_of(record@));
    Ok(row)
}

/// The rows of a rewritten store: the header, then one row for each record.
pub open spec fn spec_encode(records: Seq<RecordView>) -> Seq<Seq<Seq<char>>> {
    seq![spec_header()] + records.map_values(|r: RecordView| spec_row_of(r))
}

/// The rows of a store written from scratch: the header row, then the row
/// of each record in order. Fails with `ParseFailure` where the store cannot
/// keep one of the records.
pub fn encode(store: &Store) -> (done: Result<Vec<Vec<String>>, TrackError>)
    ensures
        records_storable(store@) ==> (done matches Ok(rows) && rows.deep_view() == spec_encode(
            store@,
        )),
        !records_storable(store@) ==> done == Err::<Vec<Vec<String>>, TrackError>(
            TrackError::ParseFailure,
        ),
{
    let mut rows: Vec<Vec<String>> = Vec::new();
    rows.push(header_row());
    let n = store.len();
    let mut i: usize = 0;
    assert(rows.deep_view() =~= spec_encode(store@.take(0)));
    while i < n
        invariant
            i <= n,
            n == store@.len(),
            records_storable(store@.take(i as int)),
            rows.deep_view() == spec_encode(store@.take(i as int)),
        decreases n - i,
    {
        let record = store.get(i).unwrap();
        let ghost before = rows.deep_view();
        match row_of(&record) {
            Ok(row) => {
                rows.push(row);
                proof {
                    assert(rows.deep_view() =~= before.push(row.deep_view()));
                    assert(store@.take(i + 1) =~= store@.take(i as int).push(record@));
                    assert(rows.deep_view() =~= spec_encode(store@.take(i + 1)));
                    assert(records_storable(store@.take(i + 1)));
                }
            },
            Err(e) => {
                assert(!record_storable(store@[i as int]));
                return Err(e);
            },
        }
        i = i + 1;
    }
    assert(store@.take(n as int) =~= store@);
    Ok(rows)
}

proof fn lemma_reads_back_prefix(records: Seq<RecordView>, n: int)
    requires
        crate::store::store_wf(records),
        records_storable(records),
        0 <= n <= records.len(),
    ensures
        spec_decode_prefix(spec_encode(records), n + 1) == Ok::<Seq<RecordView>, TrackError>(
            records.take(n),
        ),
    decreases n,
{
    let rows = spec_encode(records);
    assert(rows.len() == records.len() + 1);
    assert(rows[0] == spec_header());
    if n == 0 {
        assert(spec_decode_prefix(rows, 0) == Ok::<Seq<RecordView>, TrackError>(
            Seq::<RecordView>::empty(),
        ));
        assert(records.take(0) =~= Seq::<RecordView>::empty());
    } else {
        lemma_reads_back_prefix(records, n - 1);
        let r = records[n - 1];
        assert(rows[n] == spec_row_of(r));
        assert(r.wf());
        assert(record_storable(r));
        assert(r.end.is_none() ==> n == records.len());
        assert(records.take(n) =~= records.take(n - 1).push(r));
    }
}

/// What a store writes, it reads back: the rows written for records that
/// the store can keep stand for those very records, each with the same
/// boundaries and the same hours.
pub proof fn lemma_store_reads_back(records: Seq<RecordView>)
    requires
        crate::store::store_wf(records),
        records_storable(records),
    ensures
        spec_decode(spec_encode(records)) == Ok::<Seq<RecordView>, TrackError>(records),
{
    lemma_reads_back_prefix(records, records.len() as int);
    assert(records.take(records.len() as int) =~= records);
}

} // verus!
