//! Record stores of the recording server, not yet backed by a database.
use vstd::prelude::*;

verus! {

/// The store of download records.
#[derive(Clone, Copy, Debug, PartialEq, Eq, Structural)]
pub struct SqliteDownloadRecordsRepository {}

impl SqliteDownloadRecordsRepository {
    pub fn new() -> (r: Self)
        ensures
            r == (SqliteDownloadRecordsRepository {}),
    {
        Self {}
    }
}

/// The store of upload records.
#[derive(Clone, Copy, Debug, PartialEq, Eq, Structural)]
pub struct SqliteUploadRecordsRepository {}

impl SqliteUploadRecordsRepository {
    pub fn new() -> (r: Self)
        ensures
            r == (SqliteUploadRecordsRepository {}),
    {
        Self {}
    }
}

} // verus!
