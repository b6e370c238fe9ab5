use crate::error::TrackError;
use crate::instant::{Instant, InstantView};
use crate::record::{spec_record, spec_with_field, Field, RecordView, ShiftRecord};
use vstd::prelude::*;

verus! {

/// Whether no record but the last one is open.
pub open spec fn open_only_last(records: Seq<RecordView>) -> bool {
    forall|i: int| 0 <= i < records.len() - 1 ==> (#[trigger] records[i]).end.is_some()
}

/// Whether every record is one that a record can be.
pub open spec fn records_wf(records: Seq<RecordView>) -> bool {
    forall|i: int| 0 <= i < records.len() ==> (#[trigger] records[i]).wf()
}

/// Whether the records are what a store can hold.
pub open spec fn store_wf(records: Seq<RecordView>) -> bool {
    open_only_last(records) && records_wf(records)
}

/// Whether the last record is that of an open shift.
pub open spec fn spec_is_open(records: Seq<RecordView>) -> bool {
    records.len() > 0 && records.last().end.is_none()
}

/// The clock-in time of the open shift, if there is one.
pub open spec fn spec_last_open(records: Seq<RecordView>) -> Option<InstantView> {
    if spec_is_open(records) {
        Some(records.last().start)
    } else {
        None
    }
}

/// The records after `record` was appended. An open record at the end has no
/// clock-out of its own any more once another record follows it, so the new
/// record takes its place.
pub open spec fn spec_append(records: Seq<RecordView>, record: RecordView) -> Seq<RecordView> {
    if spec_is_open(records) {
        records.drop_last().push(record)
    } else {
        records.push(record)
    }
}

/// The records after `field` of the last one was set to `value`.
pub open spec fn spec_replace_last(
    records: Seq<RecordView>,
    field: Field,
    value: InstantView,
) -> Seq<RecordView> {
    records.update(records.len() - 1, spec_with_field(records.last(), field, value))
}

/// The records of one job, in the order in which they were written.
#[derive(Debug, PartialEq, Eq)]
pub struct Store {
    records: Vec<ShiftRecord>,
}

impl View for Store {
    type V = Seq<RecordView>;

    closed spec fn view(&self) -> Seq<RecordView> {
        self.records@.map_values(|r: ShiftRecord| r@)
    }
}

impl Store {
    /// At most one record is open, and it is the last one.
    #[verifier::type_invariant]
    pub open spec fn wf(&self) -> bool {
        store_wf(self@)
    }

    /// A store without records.
    pub fn new() -> (store: Store)
        ensures
            store@ == Seq::<RecordView>::empty(),
    {
        let store = Store { records: Vec::new() };
        assert(store@ =~= Seq::<RecordView>::empty());
        store
    }

    /// The number of records.
    pub fn len(&self) -> (n: usize)
        ensures
            n == self@.len(),
    {
        self.records.len()
    }

    /// The record at position `index`, counted from zero.
    pub fn get(&self, index: usize) -> (record: Option<ShiftRecord>)
        ensures
            record.is_some() == (index < self@.len()),
            record matches Some(r) ==> r@ == self@[index as int],
    {
        if index < self.records.len() {
            Some(self.records[index])
        } else {
            None
        }
    }

    /// The last record.
    pub fn last(&self) -> (record: Option<ShiftRecord>)
        ensures
            record.is_some() == (self@.len() > 0),
            record matches Some(r) ==> r@ == self@.last(),
    {
        let n = self.records.len();
        if n > 0 {
            Some(self.records[n - 1])
        } else {
            None
        }
    }

    /// Whether a shift is open: a clock-in without its clock-out.
    pub fn is_open(&self) -> (open: bool)
        ensures
            open == spec_is_open(self@),
    {
        let n = self.records.len();
        n > 0 && self.records[n - 1].is_open()
    }

    /// The clock-in time of the open shift, if there is one.
    pub fn last_open(&self) -> (start: Option<Instant>)
        ensures
            start.is_some() == spec_is_open(self@),
            start matches Some(t) ==> spec_last_open(self@) == Some(t@),
    {
        let n = self.records.len();
        if n > 0 && self.records[n - 1].is_open() {
            Some(self.records[n - 1].start())
        } else {
            None
        }
    }

    /// Moves the records out and leaves the store empty.
    fn take_records(&mut self) -> (records: Vec<ShiftRecord>)
        ensures
            records@.map_values(|r: ShiftRecord| r@) == old(self)@,
            records@.len() == old(self)@.len(),
            store_wf(old(self)@),
            final(self)@ == Seq::<RecordView>::empty(),
    {
        proof {
            use_type_invariant(&*self);
        }
        let mut taken = Store::new();
        core::mem::swap(self, &mut taken);
        taken.records
    }

    /// Appends `record`, in place of an open record at the end if there is one.
    pub fn append(&mut self, record: ShiftRecord)
        ensures
            final(self)@ == spec_append(old(self)@, record@),
    {
        proof {
            use_type_invariant(&record);
        }
        let mut records = self.take_records();
        let n = records.len();
        if n > 0 && records[n - 1].is_open() {
            records.set(n - 1, record);
        } else {
            records.push(record);
        }
        assert(records@.map_values(|r: ShiftRecord| r@) =~= spec_append(old(self)@, record@));
        *self = Store { records };
    }

    /// Appends the record of a shift that begins at `start`. Whether a shift
    /// was open already is not asked: the new clock-in is the one that counts.
    pub fn append_open(&mut self, start: Instant)
        ensures
            final(self)@ == spec_append(old(self)@, spec_record(start@, None)),
    {
        self.append(ShiftRecord::open(start));
    }

    /// Appends the record of a shift from `start` to `end`.
    pub fn append_closed(&mut self, start: Instant, end: Instant)
        ensures
            final(self)@ == spec_append(old(self)@, spec_record(start@, Some(end@))),
    {
        self.append(ShiftRecord::closed(start, end));
    }

    /// Sets `field` of the last record to `value` and computes its hours anew.
    /// Fails with `EmptyStore`, changing nothing, where there is no record.
    pub fn replace_last(&mut self, field: Field, value: Instant) -> (done: Result<
        ShiftRecord,
        TrackError,
    >)
        ensures
            old(self)@.len() == 0 ==> done == Err::<ShiftRecord, TrackError>(TrackError::EmptyStore)
                && final(self)@ == old(self)@,
            old(self)@.len() > 0 ==> final(self)@ == spec_replace_last(old(self)@, field, value@)
                && (done matches Ok(r) && r@ == final(self)@.last()),
    {
        proof {
            use_type_invariant(&value);
        }
        let n = self.records.len();
        if n == 0 {
            return Err(TrackError::EmptyStore);
        }
        let mut records = self.take_records();
        let record = records[n - 1].with_field(field, value);
        proof {
            use_type_invariant(&record);
        }
        records.set(n - 1, record);
        assert(records@.map_values(|r: ShiftRecord| r@) =~= spec_replace_last(
            old(self)@,
            field,
            value@,
        ));
        *self = Store { records };
        Ok(record)
    }

    /// Clocks in at `now`: the store then ends with an open shift that began
    /// at `now`, whether or not a shift was open before.
    pub fn clock_in(&mut self, now: Instant) -> (record: ShiftRecord)
        ensures
            final(self)@ == spec_append(old(self)@, spec_record(now@, None)),
            record@ == spec_record(now@, None),
            spec_last_open(final(self)@) == Some(now@),
    {
        let record = ShiftRecord::open(now);
        self.append(record);
        record
    }

    /// Clocks out at `now`: the open shift is closed with the hours from its
    /// clock-in to `now`. Fails with `NoOpenShift`, changing nothing, where
    /// the store does not end with an open shift.
    pub fn clock_out(&mut self, now: Instant) -> (done: Result<ShiftRecord, TrackError>)
        ensures
            !spec_is_open(old(self)@) ==> done == Err::<ShiftRecord, TrackError>(
                TrackError::NoOpenShift,
            ) && final(self)@ == old(self)@,
            spec_is_open(old(self)@) ==> final(self)@ == spec_replace_last(
                old(self)@,
                Field::End,
                now@,
            ) && (done matches Ok(r) && r@ == spec_record(old(self)@.last().start, Some(now@))),
    {
        if !self.is_open() {
            return Err(TrackError::NoOpenShift);
        }
        self.replace_last(Field::End, now)
    }

    /// Sets the clock-in time of the last shift to `start`.
    pub fn edit_start(&mut self, start: Instant) -> (done: Result<ShiftRecord, TrackError>)
        ensures
            old(self)@.len() == 0 ==> done == Err::<ShiftRecord, TrackError>(TrackError::EmptyStore)
                && final(self)@ == old(self)@,
            old(self)@.len() > 0 ==> final(self)@ == spec_replace_last(
                old(self)@,
                Field::Start,
                start@,
            ) && (done matches Ok(r) && r@ == final(self)@.last()),
    {
        self.replace_last(Field::Start, start)
    }

    /// Sets the clock-out time of the last shift to `stop`; an open shift is
    /// closed by it.
    pub fn edit_stop(&mut self, stop: Instant) -> (done: Result<ShiftRecord, TrackError>)
        ensures
            old(self)@.len() == 0 ==> done == Err::<ShiftRecord, TrackError>(TrackError::EmptyStore)
                && final(self)@ == old(self)@,
            old(self)@.len() > 0 ==> final(self)@ == spec_replace_last(
                old(self)@,
                Field::End,
                stop@,
            ) && (done matches Ok(r) && r@ == final(self)@.last()),
    {
        self.replace_last(Field::End, stop)
    }
}

/// An edit of the last record leaves every record before it as it was, keeps
/// the other boundary of the last one, and gives the last one the hours of its
/// new boundaries; the result is again what a store can hold.
pub proof fn lemma_edit_touches_last_only(
    records: Seq<RecordView>,
    field: Field,
    value: InstantView,
)
    requires
        store_wf(records),
        records.len() >= 1,
        value.wf(),
    ensures
        ({
            let after = spec_replace_last(records, field, value);
            &&& after.len() == records.len()
            &&& forall|i: int| 0 <= i < records.len() - 1 ==> after[i] == records[i]
            &&& field == Field::Start ==> after.last().start == value && after.last().end
                == records.last().end
            &&& field == Field::End ==> after.last().end == Some(value) && after.last().start
                == records.last().start
            &&& after.last().hours == crate::record::spec_hours_of(
                after.last().start,
                after.last().end,
            )
            &&& store_wf(after)
        }),
{
}

/// A clock-out on an open store is the edit that sets the end of the last
/// record; a clock-in makes the store open, with the new clock-in time.
pub proof fn lemma_clock_in_then_out(records: Seq<RecordView>, t0: InstantView, t1: InstantView)
    requires
        store_wf(records),
        t0.wf(),
        t1.wf(),
    ensures
        ({
            let opened = spec_append(records, spec_record(t0, None));
            let closed = spec_replace_last(opened, Field::End, t1);
            &&& store_wf(opened)
            &&& spec_is_open(opened)
            &&& closed == spec_append(records, spec_record(t0, Some(t1)))
            &&& !spec_is_open(closed)
            &&& closed.last().hours == crate::hours::spec_hours_between(t0, t1)
        }),
{
    let opened = spec_append(records, spec_record(t0, None));
    let closed = spec_replace_last(opened, Field::End, t1);
    assert(closed =~= spec_append(records, spec_record(t0, Some(t1))));
}

} // verus!
