//! Time tracking for jobs: shifts are clocked in and out, kept as rows of a
//! per-job store, corrected at their latest boundary and summed up in hours.

pub mod clock;
pub mod commands;
pub mod decimal;
pub mod error;
pub mod hours;
pub mod instant;
pub mod record;
pub mod report;
pub mod rows;
pub mod store;
pub mod summary;
pub mod table;
