//! Canonical addresses of tables.
//!
//! A [`Location`] is what the URL parser made of a path: it is never built
//! from raw text by hand, so whatever holds a `Location` holds a parsed URL.

use vstd::prelude::*;
use vstd::string::StringExecFns;

verus! {

/// A parsed URL, as the parts that the viewer reads.
#[derive(Clone, Debug, PartialEq, Eq)]
pub struct Location {
    text: String,
    scheme: String,
    host: Option<String>,
    prefix: String,
}

/// A location as a mathematical value.
pub struct LocationView {
    /// The whole URL.
    pub text: Seq<char>,
    /// The scheme, without the colon.
    pub scheme: Seq<char>,
    /// The host (the bucket, for an object store), if the URL has one.
    pub host: Option<Seq<char>>,
    /// The URL up to the end of the host: scheme, separator, user and host.
    pub prefix: Seq<char>,
}

/// Why a text is no absolute URL.
#[derive(Clone, Copy, Debug, PartialEq, Eq, Hash, Structural)]
pub enum ParseFailure {
    /// The text has no scheme: it may be a path.
    RelativeUrlWithoutBase,
    /// Anything else: a bad host, port or address, or a text too long.
    Malformed,
}

/// What parsing a text as an absolute URL gives.
pub uninterp spec fn url_parse(input: Seq<char>) -> Result<LocationView, ParseFailure>;

/// The `file` URL of the file at an absolute path, if the path has one.
pub uninterp spec fn file_url(path: Seq<char>) -> Option<LocationView>;

/// A text with a slash at its end: the text itself where it ends in one.
pub open spec fn spec_with_slash(text: Seq<char>) -> Seq<char> {
    if text.len() > 0 && text.last() == '/' {
        text
    } else {
        text.push('/')
    }
}

/// The `file` URL of the directory at an absolute path, if the path has
/// one: the URL of the path as a file, with a slash at its end.
pub open spec fn directory_url(path: Seq<char>) -> Option<LocationView> {
    match file_url(path) {
        Some(l) => Some(LocationView { text: spec_with_slash(l.text), ..l }),
        None => None,
    }
}

/// The URL of a directory ends in a slash.
pub proof fn lemma_directory_url_ends_in_slash(path: Seq<char>)
    ensures
        directory_url(path) is Some ==> directory_url(path)->0.text.len() > 0 && directory_url(
            path,
        )->0.text.last() == '/',
{
}

impl View for Location {
    type V = LocationView;

    closed spec fn view(&self) -> LocationView {
        LocationView {
            text: self.text@,
            scheme: self.scheme@,
            host: match self.host {
                Some(h) => Some(h@),
                None => None,
            },
            prefix: self.prefix@,
        }
    }
}

impl Location {
    /// The whole URL.
    pub fn as_str(&self) -> (s: &str)
        ensures
            s@ == self@.text,
    {
        self.text.as_str()
    }

    /// The scheme, without the colon.
    pub fn scheme(&self) -> (s: &str)
        ensures
            s@ == self@.scheme,
    {
        self.scheme.as_str()
    }

    /// The host, if the URL has one.
    pub fn host_str(&self) -> (h: Option<&str>)
        ensures
            match h {
                Some(s) => self@.host == Some(s@),
                None => self@.host is None,
            },
    {
        match &self.host {
            Some(h) => Some(h.as_str()),
            None => None,
        }
    }

    /// The URL up to the end of the host.
    pub fn prefix(&self) -> (s: &str)
        ensures
            s@ == self@.prefix,
    {
        self.prefix.as_str()
    }

    /// A second location equal to this one.
    pub fn duplicate(&self) -> (l: Location)
        ensures
            l@ == self@,
    {
        Location {
            text: self.text.clone(),
            scheme: self.scheme.clone(),
            host: match &self.host {
                Some(h) => Some(h.clone()),
                None => None,
            },
            prefix: self.prefix.clone(),
        }
    }
}

/// `url::Url::parse`, with the URL handed out as its serialization
/// (`as_str`), its scheme (`scheme`), its host (`host_str`) and its text up
/// to `Position::AfterHost`. The parser reads nothing but its argument, so
/// the outcome is [`url_parse`] of the text. Of the errors only
/// `RelativeUrlWithoutBase` is told apart.
#[verifier::external_body]
pub(crate) fn parse_url(input: &str) -> (r: Result<Location, ParseFailure>)
    ensures
        match r {
            Ok(l) => url_parse(input@) == Ok::<LocationView, ParseFailure>(l@),
            Err(e) => url_parse(input@) == Err::<LocationView, ParseFailure>(e),
        },
{
    match url::Url::parse(input) {
        Ok(u) => Ok(Location {
            text: u.as_str().to_owned(),
            scheme: u.scheme().to_owned(),
            host: u.host_str().map(str::to_owned),
            prefix: u[..url::Position::AfterHost].to_owned(),
        }),
        Err(url::ParseError::RelativeUrlWithoutBase) => Err(ParseFailure::RelativeUrlWithoutBase),
        Err(_) => Err(ParseFailure::Malformed),
    }
}

/// `url::Url::from_file_path`, with the URL handed out as by [`parse_url`].
/// The function looks at the path's text only, never at the file system, so
/// the outcome is [`file_url`] of the path; where there is one, its scheme
/// is `file`.
#[verifier::external_body]
pub(crate) fn file_url_of(path: &str) -> (r: Option<Location>)
    ensures
        match r {
            Some(l) => file_url(path@) == Some(l@) && l@.scheme == "file"@,
            None => file_url(path@) is None,
        },
{
    match url::Url::from_file_path(path) {
        Ok(u) => Some(Location {
            text: u.as_str().to_owned(),
            scheme: u.scheme().to_owned(),
            host: u.host_str().map(str::to_owned),
            prefix: u[..url::Position::AfterHost].to_owned(),
        }),
        Err(()) => None,
    }
}

/// `url::Url::from_directory_path`, with the URL handed out as by
/// [`parse_url`]. The function makes the URL that `from_file_path` makes of
/// the path and appends a slash unless the URL ends in one, which leaves
/// scheme, host and prefix as they are: the outcome is [`directory_url`] of
/// the path, and where there is one, its scheme is `file`.
#[verifier::external_body]
pub(crate) fn directory_url_of(path: &str) -> (r: Option<Location>)
    ensures
        match r {
            Some(l) => directory_url(path@) == Some(l@) && l@.scheme == "file"@,
            None => directory_url(path@) is None,
        },
{
    match url::Url::from_directory_path(path) {
        Ok(u) => Some(Location {
            text: u.as_str().to_owned(),
            scheme: u.scheme().to_owned(),
            host: u.host_str().map(str::to_owned),
            prefix: u[..url::Position::AfterHost].to_owned(),
        }),
        Err(()) => None,
    }
}

} // verus!
