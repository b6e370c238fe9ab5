use vstd::prelude::*;

verus! {

/// Why a command on a job's store did not go through.
#[derive(Clone, Copy, Debug, PartialEq, Eq, Structural)]
pub enum TrackError {
    /// The store could not be created, opened, read or written.
    FileIo,
    /// A timestamp does not follow its textual pattern.
    ParseFailure,
    /// An edit was asked for on a job without any record.
    EmptyStore,
    /// A clock-out was asked for while no shift is open.
    NoOpenShift,
}

impl TrackError {
    /// The message shown on the console for this error.
    pub fn message(&self) -> (text: &'static str)
        ensures
            text@ == match *self {
                TrackError::FileIo => "The record store could not be read or written."@,
                TrackError::ParseFailure => "A timestamp does not match the expected pattern."@,
                TrackError::EmptyStore => "No records found to update."@,
                TrackError::NoOpenShift => "No clock in entry found. Please clock in first."@,
            },
    {
        match self {
            TrackError::FileIo => "The record store could not be read or written.",
            TrackError::ParseFailure => "A timestamp does not match the expected pattern.",
            TrackError::EmptyStore => "No records found to update.",
            TrackError::NoOpenShift => "No clock in entry found. Please clock in first.",
        }
    }
}

} // verus!
