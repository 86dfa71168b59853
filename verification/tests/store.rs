use adt::context::{PlanSummary, SQLContext};
use adt::error::ErrorKind;
use adt::location::{Location, ParseFailure};
use adt::store::{bucket_store, bucket_store_at, is_remote, object_store};
use adt::utils::{ensure_scheme, PathProbe};

fn at(url: &str) -> Location {
    ensure_scheme(url, &PathProbe::Missing).unwrap()
}

#[test]
fn remote_schemes() {
    assert!(is_remote("s3"));
    assert!(is_remote("s3a"));
    assert!(!is_remote("S3"));
    assert!(!is_remote("s3n"));
    assert!(!is_remote("file"));
    assert!(!is_remote("http"));
    assert!(!is_remote(""));
}

#[test]
fn s3_location_calls_for_the_store_of_its_bucket() {
    let store = object_store(&at("s3://bucket/path/to/table")).unwrap().unwrap();
    assert_eq!(store.bucket, "bucket");
    assert_eq!(store.key.as_str(), "s3://bucket");
    assert_eq!(store.key.scheme(), "s3");
    assert_eq!(store.key.host_str(), Some("bucket"));
}

#[test]
fn s3a_location_calls_for_the_store_of_its_bucket() {
    let store = object_store(&at("s3a://lake/tbl")).unwrap().unwrap();
    assert_eq!(store.bucket, "lake");
    assert_eq!(store.key.as_str(), "s3a://lake");
}

#[test]
fn store_does_not_depend_on_the_path() {
    let a = object_store(&at("s3://bucket/a")).unwrap();
    let b = object_store(&at("s3://bucket/b/c?x=1#frag")).unwrap();
    assert_eq!(a, b);
    let other = object_store(&at("s3://other/a")).unwrap();
    assert_ne!(a, other);
}

#[test]
fn other_locations_call_for_no_store() {
    assert_eq!(object_store(&at("file:///tmp/table")), Ok(None));
    assert_eq!(object_store(&at("http://example.com/table")), Ok(None));
    let local = ensure_scheme("data", &PathProbe::Directory(String::from("/data"))).unwrap();
    assert_eq!(object_store(&local), Ok(None));
}

#[test]
fn s3_location_without_bucket_fails() {
    let e = object_store(&at("s3:/path/only")).unwrap_err();
    assert_eq!(e.kind, ErrorKind::TableRegistration);
    assert_eq!(e.detail, "failed to extract host/bucket from path");
    let e = bucket_store(&at("file:///tmp/x")).unwrap_err();
    assert_eq!(e.kind, ErrorKind::TableRegistration);
}

#[test]
fn store_with_a_given_key() {
    let table = at("s3://bucket/table");
    let key = at("s3://bucket");
    let store = bucket_store_at(&table, Ok(key.duplicate())).unwrap();
    assert_eq!(store.bucket, "bucket");
    assert_eq!(store.key, key);
    let e = bucket_store_at(&table, Err(ParseFailure::Malformed)).unwrap_err();
    assert_eq!(e.kind, ErrorKind::TableRegistration);
    assert_eq!(e.detail, "unable to get bucket based S3 url");
    let e = bucket_store_at(&at("s3:/nohost"), Ok(key)).unwrap_err();
    assert_eq!(e.detail, "failed to extract host/bucket from path");
}

#[test]
fn user_of_a_bucket_url_stays_in_the_key() {
    let store = object_store(&at("s3://user@bucket/table")).unwrap().unwrap();
    assert_eq!(store.bucket, "bucket");
    assert_eq!(store.key.as_str(), "s3://user@bucket");
}

#[test]
fn script_session_serves_both_remote_schemes() {
    let ctx = SQLContext::new();
    let store = ctx.store_for(&at("s3://bucket/t")).unwrap().unwrap();
    assert_eq!(store.bucket, "bucket");
    assert_eq!(store.key.as_str(), "s3://bucket");
    let store = ctx.store_for(&at("s3a://bucket/t")).unwrap().unwrap();
    assert_eq!(store.bucket, "bucket");
    assert_eq!(store.key.as_str(), "s3a://bucket");
    assert_eq!(ctx.store_for(&at("file:///tmp/t")), Ok(None));
    assert_eq!(ctx.store_for(&at("http://example.com/t")), Ok(None));
}

#[test]
fn script_session_registers_store_for_external_table() {
    let ctx = SQLContext::new();
    let create = PlanSummary::CreateExternalTable { location: String::from("s3://bucket/t") };
    let store = ctx.execute_logical_plan(&create, &PathProbe::Missing).unwrap().unwrap();
    assert_eq!(store.bucket, "bucket");
    assert_eq!(ctx.execute_logical_plan(&PlanSummary::Other, &PathProbe::Missing), Ok(None));
    let local = PlanSummary::CreateExternalTable { location: String::from("data/t") };
    assert_eq!(
        ctx.execute_logical_plan(&local, &PathProbe::Directory(String::from("/data/t"))),
        Ok(None)
    );
    let e = ctx.execute_logical_plan(&local, &PathProbe::Missing).unwrap_err();
    assert_eq!(e.kind, ErrorKind::PathNotFound);
    let e = ctx.register_object_store("s3:/nobucket", &PathProbe::Missing).unwrap_err();
    assert_eq!(e.kind, ErrorKind::TableRegistration);
    let store =
        ctx.register_object_store("s3a://bucket/t", &PathProbe::Missing).unwrap().unwrap();
    assert_eq!(store.bucket, "bucket");
    assert_eq!(store.key.as_str(), "s3a://bucket");
}

#[test]
fn script_session_setup() {
    let setup = SQLContext::session_setup();
    assert!(setup.information_schema);
    assert_eq!(setup.table_factories, vec![String::from("DELTA")]);
}
