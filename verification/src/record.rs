use crate::hours::{hours_between, spec_hours_between};
use crate::instant::{Instant, InstantView};
use vstd::prelude::*;

verus! {

/// The boundary of a shift that an edit replaces.
#[derive(Clone, Copy, Debug, PartialEq, Eq, Structural)]
pub enum Field {
    /// The clock-in time.
    Start,
    /// The clock-out time.
    End,
}

/// The mathematical value of a shift record.
pub struct RecordView {
    /// When the shift began.
    pub start: InstantView,
    /// When the shift ended; `None` while it is open.
    pub end: Option<InstantView>,
    /// The hours worked, in hundredths; zero while the shift is open.
    pub hours: int,
}

/// The hours that belong to a shift with these boundaries.
pub open spec fn spec_hours_of(start: InstantView, end: Option<InstantView>) -> int {
    match end {
        Some(e) => spec_hours_between(start, e),
        None => 0,
    }
}

/// The record of a shift with these boundaries.
pub open spec fn spec_record(start: InstantView, end: Option<InstantView>) -> RecordView {
    RecordView { start, end, hours: spec_hours_of(start, end) }
}

/// The record `r` after `field` was set to `value`, its hours computed anew.
pub open spec fn spec_with_field(r: RecordView, field: Field, value: InstantView) -> RecordView {
    match field {
        Field::Start => spec_record(value, r.end),
        Field::End => spec_record(r.start, Some(value)),
    }
}

/// One shift of a job: open after the clock-in, closed by the clock-out.
#[derive(Clone, Copy, Debug, PartialEq, Eq)]
pub struct ShiftRecord {
    start: Instant,
    end: Option<Instant>,
    hours: i64,
}

impl View for ShiftRecord {
    type V = RecordView;

    closed spec fn view(&self) -> RecordView {
        RecordView {
            start: self.start@,
            end: match self.end {
                Some(e) => Some(e@),
                None => None,
            },
            hours: self.hours as int,
        }
    }
}

impl ShiftRecord {
    /// The hours of a record are always those of its boundaries, and its
    /// boundaries are instants within range.
    #[verifier::type_invariant]
    pub open spec fn wf(&self) -> bool {
        self@.wf()
    }

    /// The record of a shift that has begun and not ended.
    pub fn open(start: Instant) -> (record: ShiftRecord)
        ensures
            record@ == spec_record(start@, None),
    {
        proof {
            use_type_invariant(&start);
        }
        ShiftRecord { start, end: None, hours: 0 }
    }

    /// The record of a finished shift, with the hours between its boundaries.
    pub fn closed(start: Instant, end: Instant) -> (record: ShiftRecord)
        ensures
            record@ == spec_record(start@, Some(end@)),
    {
        proof {
            use_type_invariant(&start);
            use_type_invariant(&end);
        }
        let hours = hours_between(&start, &end);
        ShiftRecord { start, end: Some(end), hours }
    }

    /// This record with one boundary replaced and the hours computed anew.
    /// Setting the end of an open record closes it.
    pub fn with_field(&self, field: Field, value: Instant) -> (record: ShiftRecord)
        ensures
            record@ == spec_with_field(self@, field, value@),
    {
        proof {
            use_type_invariant(self);
        }
        match field {
            Field::Start => match self.end {
                Some(end) => ShiftRecord::closed(value, end),
                None => ShiftRecord::open(value),
            },
            Field::End => ShiftRecord::closed(self.start, value),
        }
    }

    /// When the shift began.
    pub fn start(&self) -> (t: Instant)
        ensures
            t@ == self@.start,
    {
        self.start
    }

    /// When the shift ended, unless it is still open.
    pub fn end(&self) -> (t: Option<Instant>)
        ensures
            t.is_some() == self@.end.is_some(),
            t matches Some(e) ==> self@.end == Some(e@),
    {
        self.end
    }

    /// Whether the shift has not ended yet.
    pub fn is_open(&self) -> (open: bool)
        ensures
            open == self@.end.is_none(),
    {
        self.end.is_none()
    }

    /// The hours worked, in hundredths of an hour; zero while the shift is open.
    pub fn hours(&self) -> (h: i64)
        ensures
            h == self@.hours,
            h == spec_hours_of(self@.start, self@.end),
    {
        proof {
            use_type_invariant(self);
        }
        self.hours
    }
}

impl RecordView {
    /// Whether the value is one that a record can have.
    pub open spec fn wf(self) -> bool {
        &&& self.start.wf()
        &&& self.end matches Some(e) ==> e.wf()
        &&& self.hours == spec_hours_of(self.start, self.end)
    }
}

} // verus!
