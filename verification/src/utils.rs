//! Column types by name, table paths as locations, and the errors of the
//! libraries that read Delta tables.

use vstd::prelude::*;
use crate::error::{ErrorKind, Failure, ViewerError};
use crate::location::{
    directory_url, directory_url_of, file_url, file_url_of, parse_url, url_parse, Location,
    LocationView, ParseFailure,
};
use crate::text;

verus! {

/// An error while a Delta table was read, with the message of the library
/// that raised it.
#[derive(Clone, Debug, PartialEq, Eq)]
pub enum DeltaError {
    /// The table's log or its files could not be read.
    DeltaTableError(String),
    /// Record batches could not be handled.
    ArrowError(String),
}

impl DeltaError {
    /// The fixed words for the error.
    pub open spec fn spec_message(self) -> Seq<char> {
        match self {
            DeltaError::DeltaTableError(_) => "An error occured with Delta Table"@,
            DeltaError::ArrowError(_) => "An error occured with handling Arrow data"@,
        }
    }

    /// The message of the library that raised the error.
    pub open spec fn spec_source(self) -> Seq<char> {
        match self {
            DeltaError::DeltaTableError(s) => s@,
            DeltaError::ArrowError(s) => s@,
        }
    }

    /// The fixed words for the error.
    pub fn message(&self) -> (m: &'static str)
        ensures
            m@ == self.spec_message(),
    {
        match self {
            DeltaError::DeltaTableError(_) => "An error occured with Delta Table",
            DeltaError::ArrowError(_) => "An error occured with handling Arrow data",
        }
    }

    /// The message of the library that raised the error.
    pub fn source(&self) -> (s: &str)
        ensures
            s@ == self.spec_source(),
    {
        match self {
            DeltaError::DeltaTableError(s) => s.as_str(),
            DeltaError::ArrowError(s) => s.as_str(),
        }
    }
}

/// The precision of a timestamp.
#[derive(Clone, Copy, Debug, PartialEq, Eq, Hash, Structural)]
pub enum TimeUnit {
    Second,
    Millisecond,
}

/// The type of a partition column.
#[derive(Clone, Copy, Debug, PartialEq, Eq, Hash, Structural)]
pub enum DataType {
    /// 32-bit signed integer.
    Int32,
    /// 64-bit signed integer.
    Int64,
    /// 32-bit floating point number.
    Float32,
    /// 64-bit floating point number.
    Float64,
    /// UTF-8 text.
    Utf8,
    /// Days since the epoch, in 32 bits.
    Date32,
    /// A point in time of the given precision, without a time zone.
    Timestamp(TimeUnit),
}

/// The type that a name stands for. The vocabulary is closed: `int`,
/// `bigint`, `float`, `double`, `string`, `date`, `timestamp` and
/// `timestamp_ms`, in exactly this spelling.
pub open spec fn spec_type_from_str(name: Seq<char>) -> Option<DataType> {
    if name == "int"@ {
        Some(DataType::Int32)
    } else if name == "bigint"@ {
        Some(DataType::Int64)
    } else if name == "float"@ {
        Some(DataType::Float32)
    } else if name == "double"@ {
        Some(DataType::Float64)
    } else if name == "string"@ {
        Some(DataType::Utf8)
    } else if name == "date"@ {
        Some(DataType::Date32)
    } else if name == "timestamp"@ {
        Some(DataType::Timestamp(TimeUnit::Second))
    } else if name == "timestamp_ms"@ {
        Some(DataType::Timestamp(TimeUnit::Millisecond))
    } else {
        None
    }
}

/// The known type names are made of lower case letters and the underscore:
/// none is empty, and none holds a comma, a colon or white space.
pub proof fn lemma_type_names_are_plain(name: Seq<char>)
    requires
        spec_type_from_str(name) is Some,
    ensures
        name.len() > 0,
        forall|i: int|
            0 <= i < name.len() ==> name[i] != ',' && name[i] != ':' && !text::spec_is_whitespace(
                #[trigger] name[i],
            ),
{
    reveal_strlit("int");
    reveal_strlit("bigint");
    reveal_strlit("float");
    reveal_strlit("double");
    reveal_strlit("string");
    reveal_strlit("date");
    reveal_strlit("timestamp");
    reveal_strlit("timestamp_ms");
    assert forall|i: int| 0 <= i < name.len() implies 'a' <= #[trigger] name[i] <= 'z' || name[i]
        == '_' by {}
}

/// What looking up a type name gives: the type, or a failure of kind
/// `UnsupportedType` about the name.
pub open spec fn spec_type_lookup(name: Seq<char>) -> Result<DataType, Failure> {
    match spec_type_from_str(name) {
        Some(t) => Ok(t),
        None => Err(Failure { kind: ErrorKind::UnsupportedType, detail: name }),
    }
}

/// Looks up the column type that a name stands for.
pub fn type_from_str(type_str: &str) -> (r: Result<DataType, ViewerError>)
    ensures
        match r {
            Ok(t) => spec_type_lookup(type_str@) == Ok::<DataType, Failure>(t),
            Err(e) => spec_type_lookup(type_str@) == Err::<DataType, Failure>(e@),
        },
{
    if text::equal(type_str, "int") {
        Ok(DataType::Int32)
    } else if text::equal(type_str, "bigint") {
        Ok(DataType::Int64)
    } else if text::equal(type_str, "float") {
        Ok(DataType::Float32)
    } else if text::equal(type_str, "double") {
        Ok(DataType::Float64)
    } else if text::equal(type_str, "string") {
        Ok(DataType::Utf8)
    } else if text::equal(type_str, "date") {
        Ok(DataType::Date32)
    } else if text::equal(type_str, "timestamp") {
        Ok(DataType::Timestamp(TimeUnit::Second))
    } else if text::equal(type_str, "timestamp_ms") {
        Ok(DataType::Timestamp(TimeUnit::Millisecond))
    } else {
        Err(ViewerError::new(ErrorKind::UnsupportedType, type_str))
    }
}

/// What the local file system says of a path.
#[derive(Clone, Debug, PartialEq, Eq)]
pub enum PathProbe {
    /// Nothing is there, or it cannot be reached.
    Missing,
    /// A regular file; the text is its canonical absolute path.
    File(String),
    /// Anything else, a directory as a rule; the text is its canonical
    /// absolute path.
    Directory(String),
}

/// The outcome of a resolution as a mathematical value.
pub open spec fn spec_outcome(r: Result<Location, ViewerError>) -> Result<LocationView, Failure> {
    match r {
        Ok(l) => Ok(l@),
        Err(e) => Err(e@),
    }
}

/// The location of a local path: the `file` URL of what the file system
/// found there, of a file or of a directory as the case may be.
pub open spec fn spec_local(input: Seq<char>, probe: PathProbe) -> Result<LocationView, Failure> {
    match probe {
        PathProbe::Missing => Err(Failure { kind: ErrorKind::PathNotFound, detail: input }),
        PathProbe::File(p) => match file_url(p@) {
            Some(l) => Ok(l),
            None => Err(Failure { kind: ErrorKind::InvalidLocation, detail: input }),
        },
        PathProbe::Directory(p) => match directory_url(p@) {
            Some(l) => Ok(l),
            None => Err(Failure { kind: ErrorKind::InvalidLocation, detail: input }),
        },
    }
}

/// The location of a path, given what parsing it as a URL gave: the URL
/// itself where it is one, the local path's location where the text has no
/// scheme, and a failure of kind `InvalidLocation` otherwise. The empty
/// text is no path: it is a failure of that kind too.
pub open spec fn spec_located(
    input: Seq<char>,
    parsed: Result<LocationView, ParseFailure>,
    probe: PathProbe,
) -> Result<LocationView, Failure> {
    match parsed {
        Ok(l) => Ok(l),
        Err(ParseFailure::RelativeUrlWithoutBase) => if input.len() == 0 {
            Err(Failure { kind: ErrorKind::InvalidLocation, detail: input })
        } else {
            spec_local(input, probe)
        },
        Err(ParseFailure::Malformed) => Err(
            Failure { kind: ErrorKind::InvalidLocation, detail: input },
        ),
    }
}

/// The location of a path.
pub open spec fn spec_ensure_scheme(input: Seq<char>, probe: PathProbe) -> Result<
    LocationView,
    Failure,
> {
    spec_located(input, url_parse(input), probe)
}

/// Whether a path is one of the local file system: a text that is not
/// empty and has no scheme.
pub open spec fn spec_is_local_path(
    input: Seq<char>,
    parsed: Result<LocationView, ParseFailure>,
) -> bool {
    input.len() > 0 && parsed == Err::<LocationView, ParseFailure>(
        ParseFailure::RelativeUrlWithoutBase,
    )
}

/// Whether a path is to be looked up on the local file system. Only then
/// does resolving it look at the probe.
pub fn is_local_path(s: &str) -> (local: bool)
    ensures
        local == spec_is_local_path(s@, url_parse(s@)),
{
    match parse_url(s) {
        Err(ParseFailure::RelativeUrlWithoutBase) => !s.is_empty(),
        _ => false,
    }
}

/// Decides the location of a path from what parsing it as a URL gave and
/// from what the file system says of it.
pub fn located(s: &str, parsed: Result<Location, ParseFailure>, probe: &PathProbe) -> (r: Result<
    Location,
    ViewerError,
>)
    ensures
        spec_outcome(r) == spec_located(
            s@,
            match parsed {
                Ok(l) => Ok(l@),
                Err(e) => Err(e),
            },
            *probe,
        ),
        parsed is Err && r is Ok ==> r->Ok_0@.scheme == "file"@,
{
    match parsed {
        Ok(l) => Ok(l),
        Err(ParseFailure::RelativeUrlWithoutBase) => {
            if s.is_empty() {
                return Err(ViewerError::new(ErrorKind::InvalidLocation, s));
            }
            let built = match probe {
                PathProbe::Missing => {
                    return Err(ViewerError::new(ErrorKind::PathNotFound, s));
                },
                PathProbe::File(p) => file_url_of(p.as_str()),
                PathProbe::Directory(p) => directory_url_of(p.as_str()),
            };
            match built {
                Some(l) => Ok(l),
                None => Err(ViewerError::new(ErrorKind::InvalidLocation, s)),
            }
        },
        Err(ParseFailure::Malformed) => Err(ViewerError::new(ErrorKind::InvalidLocation, s)),
    }
}

/// Resolves a path to a location. An absolute URL stands for itself. A text
/// without a scheme is a local path: its location is the `file` URL of the
/// canonical path that the probe holds, and a failure of kind `PathNotFound`
/// where the probe found nothing. Any other text, the empty one among them,
/// is a failure of kind `InvalidLocation`. The outcome depends on the two
/// arguments alone.
pub fn ensure_scheme(s: &str, probe: &PathProbe) -> (r: Result<Location, ViewerError>)
    ensures
        spec_outcome(r) == spec_ensure_scheme(s@, *probe),
        url_parse(s@) is Err && r is Ok ==> r->Ok_0@.scheme == "file"@,
{
    located(s, parse_url(s), probe)
}

/// Resolving the same path against the same state of the file system gives
/// the same outcome, whoever does it and however often.
pub proof fn lemma_resolution_is_deterministic(
    s: Seq<char>,
    probe: PathProbe,
    first: Result<Location, ViewerError>,
    second: Result<Location, ViewerError>,
)
    requires
        spec_outcome(first) == spec_ensure_scheme(s, probe),
        spec_outcome(second) == spec_ensure_scheme(s, probe),
    ensures
        spec_outcome(first) == spec_outcome(second),
        first is Ok <==> second is Ok,
        first is Ok ==> first->Ok_0@ == second->Ok_0@,
{
}

} // verus!
