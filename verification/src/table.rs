use crate::error::TrackError;
use vstd::prelude::*;

verus! {

/// The error of the `csv` crate, carried from its calls to where it is mapped.
#[verifier::external_type_specification]
#[verifier::external_body]
pub struct ExCsvError(csv::Error);

/// The rows of fields that the bytes of a store hold, read as
/// comma-separated values without a header and with rows of any length, or
/// `None` where the bytes cannot be read so.
pub uninterp spec fn csv_rows(bytes: Seq<u8>) -> Option<Seq<Seq<Seq<char>>>>;

/// The bytes of one row of comma-separated values with these fields, its
/// line end included.
pub uninterp spec fn csv_line(fields: Seq<Seq<char>>) -> Seq<u8>;

/// Reads all rows through `csv::Reader::records`, from a reader made by
/// `csv::ReaderBuilder` with `has_headers(false)` and `flexible(true)`.
/// Claimed: what comes back, the failure too, depends on the bytes alone.
#[verifier::external_body]
fn read_csv(bytes: &[u8]) -> (rows: Result<Vec<Vec<String>>, csv::Error>)
    ensures
        rows matches Ok(r) ==> csv_rows(bytes@) == Some(r.deep_view()),
        rows.is_err() ==> csv_rows(bytes@).is_none(),
{
    let mut reader = csv::ReaderBuilder::new().has_headers(false).flexible(true).from_reader(bytes);
    reader.records().map(|row| row.map(|fields| fields.iter().map(String::from).collect())).collect()
}

/// Writes one row through `csv::Writer::write_record` into an empty buffer
/// and takes the buffer back with `csv::Writer::into_inner`. Claimed: the
/// call succeeds, and the bytes depend on the fields alone. The writer fails
/// only where the buffer under it does, which a `Vec<u8>` never does, or where
/// a record has another number of fields than the first one written, and
/// here one record is written.
#[verifier::external_body]
fn write_csv(fields: &Vec<String>) -> (line: Result<Vec<u8>, csv::Error>)
    ensures
        line.is_ok(),
        line matches Ok(b) ==> b@ == csv_line(fields.deep_view()),
{
    let mut writer = csv::Writer::from_writer(Vec::new());
    writer.write_record(fields)?;
    writer.into_inner().map_err(|e| csv::Error::from(e.into_error()))
}

/// What `rows_of` makes of what was read.
pub open spec fn spec_rows_of(read: Option<Seq<Seq<Seq<char>>>>) -> Result<
    Seq<Seq<Seq<char>>>,
    TrackError,
> {
    match read {
        Some(rows) => Ok(rows),
        None => Err(TrackError::FileIo),
    }
}

/// The rows of a store from its bytes. Fails with `FileIo` where the bytes
/// cannot be read as comma-separated values.
pub fn rows_of(bytes: &[u8]) -> (done: Result<Vec<Vec<String>>, TrackError>)
    ensures
        match spec_rows_of(csv_rows(bytes@)) {
            Ok(rows) => done matches Ok(r) && r.deep_view() == rows,
            Err(e) => done == Err::<Vec<Vec<String>>, TrackError>(e),
        },
{
    match read_csv(bytes) {
        Ok(rows) => Ok(rows),
        Err(_) => Err(TrackError::FileIo),
    }
}

/// The bytes of all `rows`, one line after the other.
pub open spec fn spec_table_bytes(rows: Seq<Seq<Seq<char>>>) -> Seq<u8>
    decreases rows.len(),
{
    if rows.len() == 0 {
        Seq::<u8>::empty()
    } else {
        spec_table_bytes(rows.drop_last()) + csv_line(rows.last())
    }
}

/// The bytes of one row. Writing into memory always succeeds.
pub fn line_bytes(fields: &Vec<String>) -> (done: Result<Vec<u8>, TrackError>)
    ensures
        done matches Ok(b) && b@ == csv_line(fields.deep_view()),
{
    match write_csv(fields) {
        Ok(line) => Ok(line),
        Err(_) => Err(TrackError::FileIo),
    }
}

/// The bytes of a store with these rows. Writing into memory always
/// succeeds.
pub fn table_bytes(rows: &Vec<Vec<String>>) -> (done: Result<Vec<u8>, TrackError>)
    ensures
        done matches Ok(b) && b@ == spec_table_bytes(rows.deep_view()),
{
    let mut bytes: Vec<u8> = Vec::new();
    let n = rows.len();
    let mut i: usize = 0;
    assert(rows.deep_view().take(0) =~= Seq::<Seq<Seq<char>>>::empty());
    while i < n
        invariant
            i <= n,
            n == rows.len(),
            bytes@ == spec_table_bytes(rows.deep_view().take(i as int)),
        decreases n - i,
    {
        let mut line = line_bytes(&rows[i])?;
        proof {
            let all = rows.deep_view();
            assert(all.take(i + 1).drop_last() =~= all.take(i as int));
            assert(all.take(i + 1).last() == rows[i as int].deep_view());
        }
        bytes.append(&mut line);
        i = i + 1;
    }
    assert(rows.deep_view().take(n as int) =~= rows.deep_view());
    Ok(bytes)
}

} // verus!
