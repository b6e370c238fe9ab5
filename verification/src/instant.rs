use vstd::prelude::*;

verus! {

/// The earliest second since the Unix epoch that an instant may hold.
pub const MIN_SECONDS: i64 = -8_334_601_315_200;

/// The latest second since the Unix epoch that an instant may hold.
pub const MAX_SECONDS: i64 = 8_210_266_876_799;

/// Nanoseconds in one second.
pub const NANOS_PER_SECOND: u32 = 1_000_000_000;

/// Seconds in one day: a UTC offset stays strictly below it, east and west.
pub const OFFSET_LIMIT: i32 = 86_400;

/// The mathematical value of an instant.
pub struct InstantView {
    /// Whole seconds since the Unix epoch, in UTC.
    pub seconds: int,
    /// Nanoseconds since the last whole second.
    pub nanos: int,
    /// Seconds that local time is ahead of UTC.
    pub offset: int,
}

impl InstantView {
    /// Whether the value is one that an instant can have.
    pub open spec fn wf(self) -> bool {
        parts_in_range(self.seconds, self.nanos, self.offset)
    }
}

/// Whether three numbers are within what an instant may hold.
pub open spec fn parts_in_range(seconds: int, nanos: int, offset: int) -> bool {
    &&& MIN_SECONDS <= seconds <= MAX_SECONDS
    &&& 0 <= nanos < NANOS_PER_SECOND
    &&& -OFFSET_LIMIT < offset < OFFSET_LIMIT
}

/// A point in time with the UTC offset of the clock that read it.
#[derive(Clone, Copy, Debug, PartialEq, Eq, Structural)]
pub struct Instant {
    seconds: i64,
    nanos: u32,
    offset: i32,
}

impl View for Instant {
    type V = InstantView;

    closed spec fn view(&self) -> InstantView {
        InstantView {
            seconds: self.seconds as int,
            nanos: self.nanos as int,
            offset: self.offset as int,
        }
    }
}

impl Instant {
    /// Every instant is within range: the type keeps this of each value.
    #[verifier::type_invariant]
    pub open spec fn wf(&self) -> bool {
        self@.wf()
    }

    /// An instant from its three numbers, where they are within range.
    pub fn from_parts(seconds: i64, nanos: u32, offset: i32) -> (made: Option<Instant>)
        ensures
            made.is_some() == parts_in_range(seconds as int, nanos as int, offset as int),
            made matches Some(t) ==> t.wf() && t@ == (InstantView {
                seconds: seconds as int,
                nanos: nanos as int,
                offset: offset as int,
            }),
    {
        if MIN_SECONDS <= seconds && seconds <= MAX_SECONDS && nanos < NANOS_PER_SECOND
            && -OFFSET_LIMIT < offset && offset < OFFSET_LIMIT {
            Some(Instant { seconds, nanos, offset })
        } else {
            None
        }
    }

    /// Whole seconds since the Unix epoch, in UTC.
    pub fn seconds(&self) -> (s: i64)
        ensures
            s == self@.seconds,
            self.wf(),
    {
        proof {
            use_type_invariant(self);
        }
        self.seconds
    }

    /// Nanoseconds since the last whole second.
    pub fn nanos(&self) -> (n: u32)
        ensures
            n == self@.nanos,
    {
        self.nanos
    }

    /// Seconds that local time is ahead of UTC.
    pub fn offset(&self) -> (o: i32)
        ensures
            o == self@.offset,
    {
        self.offset
    }
}

} // verus!
