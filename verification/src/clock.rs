use crate::error::TrackError;
use crate::instant::{parts_in_range, Instant, InstantView};
use vstd::prelude::*;
use vstd::string::StrSliceExecFns;

verus! {

/// The RFC 3339 text that stands in a store for the instant with these
/// seconds since the epoch, nanoseconds and UTC offset.
pub uninterp spec fn rfc3339_text(seconds: int, nanos: int, offset: int) -> Seq<char>;

/// The seconds, nanoseconds and UTC offset that an RFC 3339 text denotes, or
/// `None` where the text is not RFC 3339.
pub uninterp spec fn rfc3339_instant(text: Seq<char>) -> Option<(int, int, int)>;

/// The console text `YYYY-MM-DD HH:MM:SS` of the local date and time of the
/// instant with these seconds, nanoseconds and UTC offset.
pub uninterp spec fn display_text(seconds: int, nanos: int, offset: int) -> Seq<char>;

/// The date and time that a console text `YYYY-MM-DD HH:MM:SS` denotes, as
/// the seconds that a clock without offset would count from the epoch and the
/// nanoseconds; `None` where the text does not follow the pattern.
pub uninterp spec fn display_reading(text: Seq<char>) -> Option<(int, int)>;

/// Reads the system clock through `chrono::Local::now`.
///
/// Claimed of every reading: the seconds are within the range of instants,
/// the nanoseconds are below one second (the system clock reports no leap
/// second), and the offset is below one day. Where the system clock stands
/// before the Unix epoch, chrono does not return.
#[verifier::external_body]
fn read_clock() -> (parts: (i64, u32, i32))
    ensures
        parts_in_range(parts.0 as int, parts.1 as int, parts.2 as int),
{
    let now = chrono::Local::now();
    (now.timestamp(), now.timestamp_subsec_nanos(), now.offset().local_minus_utc())
}

/// Writes an instant through `chrono::DateTime::to_rfc3339`, in its own
/// offset. Claimed: the text depends on the three numbers alone.
#[verifier::external_body]
fn write_rfc3339(t: &Instant) -> (text: String)
    requires
        t.wf(),
    ensures
        text@ == rfc3339_text(t@.seconds, t@.nanos, t@.offset),
{
    let zone = chrono::FixedOffset::east_opt(t.offset()).unwrap();
    let utc = chrono::DateTime::from_timestamp(t.seconds(), t.nanos()).unwrap();
    utc.with_timezone(&zone).to_rfc3339()
}

/// Reads a text through `chrono::DateTime::parse_from_rfc3339`. Claimed: what
/// comes back, the failure too, depends on the text alone.
#[verifier::external_body]
fn read_rfc3339(text: &str) -> (parts: Option<(i64, u32, i32)>)
    ensures
        parts matches Some(p) ==> rfc3339_instant(text@) == Some(
            (p.0 as int, p.1 as int, p.2 as int),
        ),
        parts.is_none() ==> rfc3339_instant(text@).is_none(),
{
    match chrono::DateTime::parse_from_rfc3339(text) {
        Ok(t) => Some((t.timestamp(), t.timestamp_subsec_nanos(), t.offset().local_minus_utc())),
        Err(_) => None,
    }
}

/// Writes the local date and time of an instant through
/// `chrono::DateTime::format` with the pattern `%Y-%m-%d %H:%M:%S`. Claimed:
/// the text depends on the three numbers alone.
#[verifier::external_body]
fn write_display(t: &Instant) -> (text: String)
    requires
        t.wf(),
    ensures
        text@ == display_text(t@.seconds, t@.nanos, t@.offset),
{
    let zone = chrono::FixedOffset::east_opt(t.offset()).unwrap();
    let utc = chrono::DateTime::from_timestamp(t.seconds(), t.nanos()).unwrap();
    utc.with_timezone(&zone).format("%Y-%m-%d %H:%M:%S").to_string()
}

/// Reads a text through `chrono::NaiveDateTime::parse_from_str` with the
/// pattern `%Y-%m-%d %H:%M:%S`. Claimed: what comes back, the failure too,
/// depends on the text alone.
#[verifier::external_body]
fn read_display(text: &str) -> (reading: Option<(i64, u32)>)
    ensures
        reading matches Some(p) ==> display_reading(text@) == Some((p.0 as int, p.1 as int)),
        reading.is_none() ==> display_reading(text@).is_none(),
{
    match chrono::NaiveDateTime::parse_from_str(text, "%Y-%m-%d %H:%M:%S") {
        Ok(t) => Some((t.and_utc().timestamp(), t.and_utc().timestamp_subsec_nanos())),
        Err(_) => None,
    }
}

/// Asks `chrono::Local` through `TimeZone::from_local_datetime` for the UTC
/// offset in force when the local clock shows the given reading. Nothing is
/// claimed of the answer: it depends on the time zone of the machine, and
/// there is none where the reading falls into a gap or a fold of local time.
#[verifier::external_body]
fn local_offset_at(local_seconds: i64, nanos: u32) -> (offset: Option<i32>)
{
    let reading = chrono::DateTime::from_timestamp(local_seconds, nanos)?.naive_utc();
    match chrono::TimeZone::from_local_datetime(&chrono::Local, &reading).single() {
        Some(t) => Some(t.offset().local_minus_utc()),
        None => None,
    }
}

/// The current instant, with the local UTC offset attached.
pub fn now() -> (t: Instant)
    ensures
        t.wf(),
{
    let parts = read_clock();
    Instant::from_parts(parts.0, parts.1, parts.2).unwrap()
}

/// The text under which an instant is stored: RFC 3339, with its offset.
pub fn serialize(t: &Instant) -> (text: String)
    ensures
        text@ == rfc3339_text(t@.seconds, t@.nanos, t@.offset),
{
    proof {
        use_type_invariant(t);
    }
    write_rfc3339(t)
}

/// What `deserialize` makes of the three numbers that were read from a text.
pub open spec fn spec_instant_of(parts: Option<(int, int, int)>) -> Result<
    InstantView,
    TrackError,
> {
    match parts {
        Some(p) => if parts_in_range(p.0, p.1, p.2) {
            Ok(InstantView { seconds: p.0, nanos: p.1, offset: p.2 })
        } else {
            Err(TrackError::ParseFailure)
        },
        None => Err(TrackError::ParseFailure),
    }
}

/// The instant with the numbers that were read from a stored text, or
/// `ParseFailure` where the text gave none or they are out of range.
pub fn instant_of(parts: Option<(i64, u32, i32)>) -> (done: Result<Instant, TrackError>)
    ensures
        match parts {
            Some(p) => match spec_instant_of(Some((p.0 as int, p.1 as int, p.2 as int))) {
                Ok(v) => done matches Ok(t) && t@ == v,
                Err(e) => done == Err::<Instant, TrackError>(e),
            },
            None => done == Err::<Instant, TrackError>(TrackError::ParseFailure),
        },
{
    match parts {
        Some(p) => match Instant::from_parts(p.0, p.1, p.2) {
            Some(t) => Ok(t),
            None => Err(TrackError::ParseFailure),
        },
        None => Err(TrackError::ParseFailure),
    }
}

/// The instant that a stored text denotes, or `ParseFailure` where the text
/// is not RFC 3339 or denotes an instant out of range.
pub fn deserialize(text: &str) -> (done: Result<Instant, TrackError>)
    ensures
        match spec_instant_of(rfc3339_instant(text@)) {
            Ok(v) => done matches Ok(t) && t@ == v,
            Err(e) => done == Err::<Instant, TrackError>(e),
        },
{
    instant_of(read_rfc3339(text))
}

/// Whether `text` reads back as the instant `t`: the same seconds,
/// nanoseconds and offset.
pub open spec fn reads_back(text: Seq<char>, t: InstantView) -> bool {
    spec_instant_of(rfc3339_instant(text)) == Ok::<InstantView, TrackError>(t)
}

/// The text under which the store keeps an instant: its RFC 3339 text, handed
/// out only where it reads back as the same instant. Fails with
/// `ParseFailure` where it does not, so that nothing is stored that the next
/// read would refuse or take for another time: a year of more than four
/// digits, or an offset that is not a whole number of minutes.
pub fn stored_text(t: &Instant) -> (done: Result<String, TrackError>)
    ensures
        reads_back(rfc3339_text(t@.seconds, t@.nanos, t@.offset), t@) ==> (done matches Ok(text)
            && text@ == rfc3339_text(t@.seconds, t@.nanos, t@.offset)),
        !reads_back(rfc3339_text(t@.seconds, t@.nanos, t@.offset), t@) ==> done == Err::<
            String,
            TrackError,
        >(TrackError::ParseFailure),
        done matches Ok(text) ==> spec_instant_of(rfc3339_instant(text@)) == Ok::<
            InstantView,
            TrackError,
        >(t@),
{
    let text = serialize(t);
    match deserialize(text.as_str()) {
        Ok(back) => {
            if back.seconds() == t.seconds() && back.nanos() == t.nanos() && back.offset()
                == t.offset() {
                Ok(text)
            } else {
                Err(TrackError::ParseFailure)
            }
        },
        Err(_) => Err(TrackError::ParseFailure),
    }
}

/// The console text of an instant: `YYYY-MM-DD HH:MM:SS` in its own offset.
pub fn format_display(t: &Instant) -> (text: String)
    ensures
        text@ == display_text(t@.seconds, t@.nanos, t@.offset),
{
    proof {
        use_type_invariant(t);
    }
    write_display(t)
}

/// What anchoring a clock reading to a UTC offset gives: the instant at which
/// a clock with that offset shows the reading.
pub open spec fn spec_anchor(local_seconds: int, nanos: int, offset: Option<int>) -> Result<
    InstantView,
    TrackError,
> {
    match offset {
        Some(o) => if parts_in_range(local_seconds - o, nanos, o) {
            Ok(InstantView { seconds: local_seconds - o, nanos, offset: o })
        } else {
            Err(TrackError::ParseFailure)
        },
        None => Err(TrackError::ParseFailure),
    }
}

/// Anchors a clock reading to the UTC offset that was found for it. Fails
/// with `ParseFailure` where no offset was found or the instant is out of
/// range.
pub fn anchor(local_seconds: i64, nanos: u32, offset: Option<i32>) -> (done: Result<
    Instant,
    TrackError,
>)
    ensures
        match spec_anchor(
            local_seconds as int,
            nanos as int,
            match offset {
                Some(o) => Some(o as int),
                None => None,
            },
        ) {
            Ok(v) => done matches Ok(t) && t@ == v,
            Err(e) => done == Err::<Instant, TrackError>(e),
        },
{
    match offset {
        Some(o) => match local_seconds.checked_sub(o as i64) {
            Some(seconds) => match Instant::from_parts(seconds, nanos, o) {
                Some(t) => Ok(t),
                None => Err(TrackError::ParseFailure),
            },
            None => Err(TrackError::ParseFailure),
        },
        None => Err(TrackError::ParseFailure),
    }
}

/// Whether a clock with the offset of `t` shows at `t` the date and time that
/// the console text denotes.
pub open spec fn shown_as(text: Seq<char>, t: InstantView) -> bool {
    display_reading(text) == Some((t.seconds + t.offset, t.nanos))
}

/// Whether `c` is one of the ten decimal digits.
pub open spec fn is_digit(c: char) -> bool {
    c == '0' || c == '1' || c == '2' || c == '3' || c == '4' || c == '5' || c == '6' || c == '7'
        || c == '8' || c == '9'
}

/// Whether `c` may stand at position `i` of a console text: hyphens between
/// year, month and day, one space before the time, colons between hour,
/// minute and second, and a digit everywhere else.
pub open spec fn shape_at(i: int, c: char) -> bool {
    if i == 4 || i == 7 {
        c == '-'
    } else if i == 10 {
        c == ' '
    } else if i == 13 || i == 16 {
        c == ':'
    } else {
        is_digit(c)
    }
}

/// Whether a text has exactly the shape `YYYY-MM-DD HH:MM:SS`: nineteen
/// characters, each number with all its digits, nothing before or after.
pub open spec fn spec_display_shape(text: Seq<char>) -> bool {
    text.len() == 19 && forall|i: int| 0 <= i < 19 ==> shape_at(i, #[trigger] text[i])
}

/// Whether `text` has exactly the shape `YYYY-MM-DD HH:MM:SS`.
pub fn has_display_shape(text: &str) -> (yes: bool)
    ensures
        yes == spec_display_shape(text@),
{
    if text.unicode_len() != 19 {
        return false;
    }
    let mut i: usize = 0;
    while i < 19
        invariant
            i <= 19,
            text@.len() == 19,
            forall|k: int| 0 <= k < i ==> shape_at(k, #[trigger] text@[k]),
        decreases 19 - i,
    {
        let c = text.get_char(i);
        let fits = if i == 4 || i == 7 {
            c == '-'
        } else if i == 10 {
            c == ' '
        } else if i == 13 || i == 16 {
            c == ':'
        } else {
            c == '0' || c == '1' || c == '2' || c == '3' || c == '4' || c == '5' || c == '6'
                || c == '7' || c == '8' || c == '9'
        };
        if !fits {
            assert(!shape_at(i as int, text@[i as int]));
            return false;
        }
        i = i + 1;
    }
    true
}

/// Parses a console text `YYYY-MM-DD HH:MM:SS` as local time. Fails with
/// `ParseFailure` where the text does not have exactly that shape or names no
/// date and time, where the local clock never shows that reading or shows it
/// twice, and where the instant is out of range.
pub fn parse_strict(text: &str) -> (done: Result<Instant, TrackError>)
    ensures
        !spec_display_shape(text@) ==> done == Err::<Instant, TrackError>(
            TrackError::ParseFailure,
        ),
        display_reading(text@).is_none() ==> done == Err::<Instant, TrackError>(
            TrackError::ParseFailure,
        ),
        done matches Err(e) ==> e == TrackError::ParseFailure,
        done matches Ok(t) ==> shown_as(text@, t@),
{
    if !has_display_shape(text) {
        return Err(TrackError::ParseFailure);
    }
    match read_display(text) {
        Some(reading) => {
            let offset = local_offset_at(reading.0, reading.1);
            anchor(reading.0, reading.1, offset)
        },
        None => Err(TrackError::ParseFailure),
    }
}

} // verus!
