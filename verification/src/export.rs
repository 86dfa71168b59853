//! Exporting a result to a file: the writer goes by the file's extension.

use vstd::prelude::*;
use crate::error::{ErrorKind, Failure, ViewerError};
use crate::text;

verus! {

/// The formats in which a result can be written to a file.
#[derive(Clone, Copy, Debug, PartialEq, Eq, Hash, Structural)]
pub enum OutputFormat {
    /// Comma separated values.
    Csv,
    /// One JSON object on each line.
    Json,
}

/// The extension of the file that a path names, as `std::path::Path` sees
/// it.
pub uninterp spec fn path_extension(path: Seq<char>) -> Option<Seq<char>>;

/// The format for a file with the given extension: `csv` and `json` are
/// served, in exactly this spelling. Any other extension, and a file with
/// none, is a failure of kind `UnsupportedOutputFormat` about the path.
pub open spec fn spec_output_format(path: Seq<char>, extension: Option<Seq<char>>) -> Result<
    OutputFormat,
    Failure,
> {
    if extension == Some("csv"@) {
        Ok(OutputFormat::Csv)
    } else if extension == Some("json"@) {
        Ok(OutputFormat::Json)
    } else {
        Err(Failure { kind: ErrorKind::UnsupportedOutputFormat, detail: path })
    }
}

/// `std::path::Path::extension` on the path that the text spells, handed
/// out as text. The function reads the path's text only, so the outcome is
/// [`path_extension`] of the text.
#[verifier::external_body]
fn extension_of(path: &str) -> (extension: Option<String>)
    ensures
        match extension {
            Some(e) => path_extension(path@) == Some(e@),
            None => path_extension(path@) is None,
        },
{
    match std::path::Path::new(path).extension() {
        Some(e) => e.to_str().map(str::to_owned),
        None => None,
    }
}

/// The format for a file at a path with the given extension.
pub fn output_format_for(path: &str, extension: Option<&str>) -> (r: Result<
    OutputFormat,
    ViewerError,
>)
    ensures
        match r {
            Ok(f) => Ok::<OutputFormat, Failure>(f),
            Err(e) => Err::<OutputFormat, Failure>(e@),
        } == spec_output_format(
            path@,
            match extension {
                Some(e) => Some(e@),
                None => None,
            },
        ),
{
    match extension {
        Some(e) => {
            if text::equal(e, "csv") {
                Ok(OutputFormat::Csv)
            } else if text::equal(e, "json") {
                Ok(OutputFormat::Json)
            } else {
                Err(ViewerError::new(ErrorKind::UnsupportedOutputFormat, path))
            }
        },
        None => Err(ViewerError::new(ErrorKind::UnsupportedOutputFormat, path)),
    }
}

/// The format in which a result is written to the file at a path.
pub fn output_format(path: &str) -> (r: Result<OutputFormat, ViewerError>)
    ensures
        match r {
            Ok(f) => Ok::<OutputFormat, Failure>(f),
            Err(e) => Err::<OutputFormat, Failure>(e@),
        } == spec_output_format(path@, path_extension(path@)),
{
    match extension_of(path) {
        Some(e) => output_format_for(path, Some(e.as_str())),
        None => output_format_for(path, None),
    }
}

} // verus!
