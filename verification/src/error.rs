//! The ways in which viewing a table can fail.

use vstd::prelude::*;
use vstd::string::StringExecFns;

verus! {

/// The stage that failed, and how.
#[derive(Clone, Copy, Debug, PartialEq, Eq, Hash, Structural)]
pub enum ErrorKind {
    /// The path is neither an absolute URL nor a usable local path.
    InvalidLocation,
    /// The path names nothing on the local file system.
    PathNotFound,
    /// A segment of the partition string is not of the form `name:type`.
    InvalidPartitionSpec,
    /// A type name is not one of the known names.
    UnsupportedType,
    /// The table provider could not be built or registered.
    TableRegistration,
    /// The query engine refused or failed the statement.
    QueryExecution,
    /// The export file has an extension that no writer serves.
    UnsupportedOutputFormat,
}

/// A failure: its kind and the text it is about (the path, the segment, the
/// type name, or the message of the underlying error).
#[derive(Clone, Debug, PartialEq, Eq)]
pub struct ViewerError {
    pub kind: ErrorKind,
    pub detail: String,
}

/// A failure as a mathematical value.
pub struct Failure {
    pub kind: ErrorKind,
    pub detail: Seq<char>,
}

impl View for ViewerError {
    type V = Failure;

    open spec fn view(&self) -> Failure {
        Failure { kind: self.kind, detail: self.detail@ }
    }
}

impl ErrorKind {
    /// The fixed words for a kind of failure.
    pub open spec fn spec_describe(self) -> Seq<char> {
        match self {
            ErrorKind::InvalidLocation => "invalid location"@,
            ErrorKind::PathNotFound => "path not found"@,
            ErrorKind::InvalidPartitionSpec => "invalid partition specification"@,
            ErrorKind::UnsupportedType => "unsupported type"@,
            ErrorKind::TableRegistration => "table registration failed"@,
            ErrorKind::QueryExecution => "query execution failed"@,
            ErrorKind::UnsupportedOutputFormat => "unsupported output format"@,
        }
    }

    /// The fixed words for a kind of failure.
    pub fn describe(&self) -> (words: &'static str)
        ensures
            words@ == self.spec_describe(),
    {
        match self {
            ErrorKind::InvalidLocation => "invalid location",
            ErrorKind::PathNotFound => "path not found",
            ErrorKind::InvalidPartitionSpec => "invalid partition specification",
            ErrorKind::UnsupportedType => "unsupported type",
            ErrorKind::TableRegistration => "table registration failed",
            ErrorKind::QueryExecution => "query execution failed",
            ErrorKind::UnsupportedOutputFormat => "unsupported output format",
        }
    }
}

impl ViewerError {
    /// A failure of the given kind about the given text.
    pub fn new(kind: ErrorKind, detail: &str) -> (e: ViewerError)
        ensures
            e@ == (Failure { kind, detail: detail@ }),
    {
        ViewerError { kind, detail: String::from_str(detail) }
    }

    /// The failure in words: the words of its kind, a colon and a space, and
    /// the text it is about.
    pub fn message(&self) -> (m: String)
        ensures
            m@ == self.kind.spec_describe() + ": "@ + self.detail@,
    {
        let mut m = String::from_str(self.kind.describe());
        m.append(": ");
        m.append(self.detail.as_str());
        m
    }
}

} // verus!
