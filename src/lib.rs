//! Reading, checking and writing meteorological observation files: the catalog of columns,
//! the header dialects, and the records of a file.

pub mod error;
pub mod field;
pub mod format;
pub mod record;
pub mod round_trip;
pub mod text;
