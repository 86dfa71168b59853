//! The arguments of the single-command form of the viewer.

use vstd::prelude::*;

verus! {

/// The format of a table on storage.
#[derive(Copy, Clone, Debug, PartialEq, Eq, PartialOrd, Ord, Hash, Structural)]
pub enum Format {
    /// A directory of Parquet files, without transaction metadata.
    Parquet,
    /// A Delta table: its state is read from a transaction log.
    Delta,
}

/// The arguments of one run.
#[derive(Clone, Debug, PartialEq, Eq)]
pub struct Args {
    /// The path of the table.
    pub table_path: String,
    /// The format of the table.
    pub format: Format,
    /// The statement to run against the table, which is known as `tbl`.
    pub query: String,
    /// The number of rows to show at most.
    pub limit: usize,
    /// The partition columns, as `name:type` pairs between commas.
    pub partitions: Option<String>,
}

} // verus!
