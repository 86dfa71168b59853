//! Object stores behind remote locations.
//!
//! A table in a bucket is read through an object store, which the query
//! engine looks up by the URL of the bucket. What is decided here is which
//! store a location calls for; building it, with credentials from the
//! environment, and handing it to the engine is left to the caller.

use vstd::prelude::*;
use vstd::string::StringExecFns;
use crate::error::{ErrorKind, Failure, ViewerError};
use crate::location::{parse_url, url_parse, Location, LocationView, ParseFailure};
use crate::text;

verus! {

/// An object store to register: the bucket it serves, and the URL under
/// which the engine finds it.
#[derive(Clone, Debug, PartialEq, Eq)]
pub struct StorePlan {
    /// The name of the bucket: the host of the table's location.
    pub bucket: String,
    /// The URL of the bucket: the table's location without its path.
    pub key: Location,
}

/// An object store as a mathematical value.
pub struct StorePlanView {
    pub bucket: Seq<char>,
    pub key: LocationView,
}

impl View for StorePlan {
    type V = StorePlanView;

    open spec fn view(&self) -> StorePlanView {
        StorePlanView { bucket: self.bucket@, key: self.key@ }
    }
}

/// Whether a scheme addresses a bucket: `s3` and `s3a` do.
pub open spec fn spec_is_remote(scheme: Seq<char>) -> bool {
    scheme == "s3"@ || scheme == "s3a"@
}

/// The store of a bucket, given what parsing the location's prefix as a URL
/// gave. The location must name a bucket, and its prefix must be a URL.
pub open spec fn spec_bucket_store(
    location: LocationView,
    key: Result<LocationView, ParseFailure>,
) -> Result<StorePlanView, Failure> {
    match location.host {
        None => Err(
            Failure {
                kind: ErrorKind::TableRegistration,
                detail: "failed to extract host/bucket from path"@,
            },
        ),
        Some(bucket) => match key {
            Ok(k) => Ok(StorePlanView { bucket, key: k }),
            Err(_) => Err(
                Failure {
                    kind: ErrorKind::TableRegistration,
                    detail: "unable to get bucket based S3 url"@,
                },
            ),
        },
    }
}

/// The store that a location calls for: none unless its scheme addresses a
/// bucket.
pub open spec fn spec_object_store(location: LocationView) -> Result<
    Option<StorePlanView>,
    Failure,
> {
    if spec_is_remote(location.scheme) {
        match spec_bucket_store(location, url_parse(location.prefix)) {
            Ok(s) => Ok(Some(s)),
            Err(e) => Err(e),
        }
    } else {
        Ok(None)
    }
}

/// The outcome of choosing a store as a mathematical value.
pub open spec fn spec_store_outcome(r: Result<Option<StorePlan>, ViewerError>) -> Result<
    Option<StorePlanView>,
    Failure,
> {
    match r {
        Ok(Some(s)) => Ok(Some(s@)),
        Ok(None) => Ok(None),
        Err(e) => Err(e@),
    }
}

/// Whether a scheme addresses a bucket.
pub fn is_remote(scheme: &str) -> (remote: bool)
    ensures
        remote == spec_is_remote(scheme@),
{
    text::equal(scheme, "s3") || text::equal(scheme, "s3a")
}

/// The store of the bucket that a location names, given what parsing the
/// location's prefix as a URL gave.
pub fn bucket_store_at(location: &Location, key: Result<Location, ParseFailure>) -> (r: Result<
    StorePlan,
    ViewerError,
>)
    ensures
        match r {
            Ok(s) => Ok::<StorePlanView, Failure>(s@),
            Err(e) => Err::<StorePlanView, Failure>(e@),
        } == spec_bucket_store(
            location@,
            match key {
                Ok(k) => Ok(k@),
                Err(e) => Err(e),
            },
        ),
{
    match location.host_str() {
        None => Err(
            ViewerError::new(
                ErrorKind::TableRegistration,
                "failed to extract host/bucket from path",
            ),
        ),
        Some(bucket) => match key {
            Ok(k) => Ok(StorePlan { bucket: String::from_str(bucket), key: k }),
            Err(_) => Err(
                ViewerError::new(ErrorKind::TableRegistration, "unable to get bucket based S3 url"),
            ),
        },
    }
}

/// The store of the bucket that a location names: the bucket is the
/// location's host, and its URL is the location's prefix, parsed.
pub fn bucket_store(location: &Location) -> (r: Result<StorePlan, ViewerError>)
    ensures
        match r {
            Ok(s) => Ok::<StorePlanView, Failure>(s@),
            Err(e) => Err::<StorePlanView, Failure>(e@),
        } == spec_bucket_store(location@, url_parse(location@.prefix)),
{
    bucket_store_at(location, parse_url(location.prefix()))
}

/// The object store to register before a table at this location is read,
/// if it needs one.
pub fn object_store(location: &Location) -> (r: Result<Option<StorePlan>, ViewerError>)
    ensures
        spec_store_outcome(r) == spec_object_store(location@),
{
    if is_remote(location.scheme()) {
        match bucket_store(location) {
            Ok(s) => Ok(Some(s)),
            Err(e) => Err(e),
        }
    } else {
        Ok(None)
    }
}

/// The store depends on the bucket, not on the path within it: two remote
/// locations with the same host and the same prefix call for the same store.
pub proof fn lemma_store_is_per_bucket(a: LocationView, b: LocationView)
    requires
        spec_is_remote(a.scheme),
        spec_is_remote(b.scheme),
        a.host == b.host,
        a.prefix == b.prefix,
    ensures
        spec_object_store(a) == spec_object_store(b),
{
}

/// A `file` location calls for no store.
pub proof fn lemma_file_needs_no_store(location: LocationView)
    requires
        location.scheme == "file"@,
    ensures
        spec_object_store(location) == Ok::<Option<StorePlanView>, Failure>(None),
{
    reveal_strlit("file");
    reveal_strlit("s3");
    reveal_strlit("s3a");
    assert("file"@.len() == 4);
    assert("s3"@.len() == 2);
    assert("s3a"@.len() == 3);
}

} // verus!
