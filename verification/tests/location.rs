use adt::error::ErrorKind;
use adt::location::ParseFailure;
use adt::utils::{ensure_scheme, is_local_path, located, PathProbe};

fn file(path: &str) -> PathProbe {
    PathProbe::File(String::from(path))
}

fn directory(path: &str) -> PathProbe {
    PathProbe::Directory(String::from(path))
}

#[test]
fn bucket_url_stands_for_itself() {
    let l = ensure_scheme("s3://bucket/key", &PathProbe::Missing).unwrap();
    assert_eq!(l.as_str(), "s3://bucket/key");
    assert_eq!(l.scheme(), "s3");
    assert_eq!(l.host_str(), Some("bucket"));
    assert_eq!(l.prefix(), "s3://bucket");
}

#[test]
fn s3a_url_stands_for_itself() {
    let l = ensure_scheme("s3a://my-bucket/a/b/c", &PathProbe::Missing).unwrap();
    assert_eq!(l.as_str(), "s3a://my-bucket/a/b/c");
    assert_eq!(l.scheme(), "s3a");
    assert_eq!(l.host_str(), Some("my-bucket"));
    assert_eq!(l.prefix(), "s3a://my-bucket");
}

#[test]
fn url_is_brought_into_canonical_form() {
    let l = ensure_scheme("HTTP://Example.COM/a/../b", &PathProbe::Missing).unwrap();
    assert_eq!(l.as_str(), "http://example.com/b");
    assert_eq!(l.scheme(), "http");
    assert_eq!(l.host_str(), Some("example.com"));
    assert_eq!(l.prefix(), "http://example.com");
}

#[test]
fn file_url_has_no_host() {
    let l = ensure_scheme("file:///tmp/table", &PathProbe::Missing).unwrap();
    assert_eq!(l.as_str(), "file:///tmp/table");
    assert_eq!(l.scheme(), "file");
    assert_eq!(l.host_str(), None);
    assert_eq!(l.prefix(), "file://");
}

#[test]
fn url_ignores_the_probe() {
    let with_file = ensure_scheme("s3://bucket/key", &file("/somewhere/else")).unwrap();
    let with_nothing = ensure_scheme("s3://bucket/key", &PathProbe::Missing).unwrap();
    assert_eq!(with_file, with_nothing);
}

#[test]
fn local_directory_becomes_a_directory_url() {
    let l = ensure_scheme("./data/table", &directory("/home/me/data/table")).unwrap();
    assert_eq!(l.as_str(), "file:///home/me/data/table/");
    assert_eq!(l.scheme(), "file");
    assert_eq!(l.host_str(), None);
}

#[test]
fn local_file_becomes_a_file_url() {
    let l = ensure_scheme("data/part.parquet", &file("/home/me/data/part.parquet")).unwrap();
    assert_eq!(l.as_str(), "file:///home/me/data/part.parquet");
    assert_eq!(l.scheme(), "file");
}

#[test]
fn absolute_local_path_is_a_local_path() {
    let l = ensure_scheme("/home/me/data", &directory("/home/me/data")).unwrap();
    assert_eq!(l.as_str(), "file:///home/me/data/");
}

#[test]
fn root_directory() {
    let l = ensure_scheme("/", &directory("/")).unwrap();
    assert_eq!(l.as_str(), "file:///");
}

#[test]
fn local_path_is_percent_encoded() {
    let l = ensure_scheme("my table", &directory("/data/my table")).unwrap();
    assert_eq!(l.as_str(), "file:///data/my%20table/");
    let f = ensure_scheme("a#b.parquet", &file("/data/a#b.parquet")).unwrap();
    assert_eq!(f.as_str(), "file:///data/a%23b.parquet");
}

#[test]
fn missing_local_path_is_not_found() {
    let e = ensure_scheme("./nowhere", &PathProbe::Missing).unwrap_err();
    assert_eq!(e.kind, ErrorKind::PathNotFound);
    assert_eq!(e.detail, "./nowhere");
}

#[test]
fn malformed_url_is_invalid() {
    for text in ["http://[::1", "http://exa mple.com/", "https://host:notaport/"] {
        let e = ensure_scheme(text, &directory("/data")).unwrap_err();
        assert_eq!(e.kind, ErrorKind::InvalidLocation);
        assert_eq!(e.detail, text);
    }
}

#[test]
fn empty_path_is_invalid() {
    let e = ensure_scheme("", &directory("/data")).unwrap_err();
    assert_eq!(e.kind, ErrorKind::InvalidLocation);
    assert_eq!(e.detail, "");
    let e = ensure_scheme("", &PathProbe::Missing).unwrap_err();
    assert_eq!(e.kind, ErrorKind::InvalidLocation);
}

#[test]
fn probe_with_a_relative_path_is_invalid() {
    let e = ensure_scheme("data", &directory("data")).unwrap_err();
    assert_eq!(e.kind, ErrorKind::InvalidLocation);
    assert_eq!(e.detail, "data");
    let e = ensure_scheme("data", &file("data/x")).unwrap_err();
    assert_eq!(e.kind, ErrorKind::InvalidLocation);
}

#[test]
fn resolving_twice_gives_the_same_location() {
    for (path, probe) in [
        ("s3://bucket/key", PathProbe::Missing),
        ("./data/table", directory("/home/me/data/table")),
        ("data/part.parquet", file("/home/me/data/part.parquet")),
        ("./nowhere", PathProbe::Missing),
        ("http://[::1", PathProbe::Missing),
    ] {
        assert_eq!(ensure_scheme(path, &probe), ensure_scheme(path, &probe));
    }
}

#[test]
fn which_paths_are_local() {
    assert!(is_local_path("./data/table"));
    assert!(is_local_path("data"));
    assert!(is_local_path("/abs/path"));
    assert!(is_local_path("../up"));
    assert!(!is_local_path("s3://bucket/key"));
    assert!(!is_local_path("file:///tmp/x"));
    assert!(!is_local_path("http://[::1"));
    assert!(!is_local_path(""));
}

#[test]
fn location_from_a_given_parse_outcome() {
    let parsed = ensure_scheme("s3://bucket/key", &PathProbe::Missing).unwrap();
    let kept = located("anything", Ok(parsed.duplicate()), &PathProbe::Missing).unwrap();
    assert_eq!(kept, parsed);
    let e = located("x", Err(ParseFailure::Malformed), &directory("/x")).unwrap_err();
    assert_eq!(e.kind, ErrorKind::InvalidLocation);
    assert_eq!(e.detail, "x");
    let e = located("x", Err(ParseFailure::RelativeUrlWithoutBase), &PathProbe::Missing)
        .unwrap_err();
    assert_eq!(e.kind, ErrorKind::PathNotFound);
    let l = located("x", Err(ParseFailure::RelativeUrlWithoutBase), &directory("/x")).unwrap();
    assert_eq!(l.as_str(), "file:///x/");
}

#[test]
fn duplicate_is_equal() {
    let l = ensure_scheme("s3://bucket/key", &PathProbe::Missing).unwrap();
    assert_eq!(l.duplicate(), l);
}

#[test]
fn directory_url_is_the_file_url_with_a_slash() {
    let as_file = ensure_scheme("x", &file("/home/me/x")).unwrap();
    let as_directory = ensure_scheme("x", &directory("/home/me/x")).unwrap();
    assert_eq!(as_file.as_str(), "file:///home/me/x");
    assert_eq!(as_directory.as_str(), "file:///home/me/x/");
    assert_eq!(as_file.scheme(), as_directory.scheme());
    assert_eq!(as_file.host_str(), as_directory.host_str());
    assert_eq!(as_file.prefix(), as_directory.prefix());
    let with_slash = ensure_scheme("x", &directory("/home/me/x/")).unwrap();
    assert_eq!(with_slash.as_str(), "file:///home/me/x/");
}
