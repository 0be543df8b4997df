use gscp::direction::{validate, Direction};
use gscp::errors::{CpError, DirectionError, NameError, ParseError};
use gscp::gcs::{prepare_download, prepare_upload};
use gscp::locator::{classify, DataPath, GsUrl};
use gscp::naming::{file_name_of, resolve_object_name};
use gscp::plan::{plan, TransferPlan};

fn remote(bucket: &str, object: Option<&str>) -> DataPath {
    DataPath::Gs(GsUrl {
        bucket: bucket.to_owned(),
        object: object.map(|o| o.to_owned()),
    })
}

fn local(path: &str) -> DataPath {
    DataPath::File(path.to_owned())
}

#[test]
fn classify_remote_with_object() {
    match classify("gs://bucket/incoming/report.csv".to_owned()) {
        Ok(DataPath::Gs(g)) => {
            assert_eq!(g.bucket, "bucket");
            assert_eq!(g.object.as_deref(), Some("incoming/report.csv"));
        }
        other => panic!("expected remote locator, got {:?}", other.is_ok()),
    }
}

#[test]
fn classify_remote_bucket_only() {
    match classify("gs://bucket".to_owned()) {
        Ok(DataPath::Gs(g)) => {
            assert_eq!(g.bucket, "bucket");
            assert!(g.object.is_none());
        }
        _ => panic!("expected remote locator"),
    }
}

#[test]
fn classify_remote_trailing_slash_has_no_object() {
    match classify("gs://bucket/".to_owned()) {
        Ok(DataPath::Gs(g)) => {
            assert_eq!(g.bucket, "bucket");
            assert!(g.object.is_none());
        }
        _ => panic!("expected remote locator"),
    }
}

#[test]
fn classify_local_unchanged() {
    match classify("./some/dir/file.txt".to_owned()) {
        Ok(DataPath::File(p)) => assert_eq!(p, "./some/dir/file.txt"),
        _ => panic!("expected local path"),
    }
    match classify("relative.txt".to_owned()) {
        Ok(DataPath::File(p)) => assert_eq!(p, "relative.txt"),
        _ => panic!("expected local path"),
    }
}

#[test]
fn classify_scheme_without_host_is_invalid_url() {
    assert_eq!(classify("gs://".to_owned()).unwrap_err(), ParseError::InvalidUrl);
    assert_eq!(classify("gs:///object".to_owned()).unwrap_err(), ParseError::InvalidUrl);
}

#[test]
fn classify_rejects_nonconforming_buckets() {
    assert_eq!(classify("gs://UPPER/x".to_owned()).unwrap_err(), ParseError::InvalidLocator);
    assert_eq!(classify("gs://ab/x".to_owned()).unwrap_err(), ParseError::InvalidLocator);
    assert_eq!(classify("gs://-bad/x".to_owned()).unwrap_err(), ParseError::InvalidLocator);
    assert_eq!(classify("gs://bad-/x".to_owned()).unwrap_err(), ParseError::InvalidLocator);
    assert_eq!(classify("gs://goog-bucket/x".to_owned()).unwrap_err(), ParseError::InvalidLocator);
    assert_eq!(
        classify("gs://my-google-bucket/x".to_owned()).unwrap_err(),
        ParseError::InvalidLocator
    );
    assert_eq!(classify("gs://g00gle-ish/x".to_owned()).unwrap_err(), ParseError::InvalidLocator);
    let too_long = format!("gs://{}/x", "a".repeat(64));
    assert_eq!(classify(too_long).unwrap_err(), ParseError::InvalidLocator);
}

#[test]
fn classify_accepts_interior_punctuation_in_buckets() {
    match classify("gs://my-bucket_0.backup/x".to_owned()) {
        Ok(DataPath::Gs(g)) => assert_eq!(g.bucket, "my-bucket_0.backup"),
        _ => panic!("expected remote locator"),
    }
}

#[test]
fn classify_rejects_nonconforming_objects() {
    assert_eq!(classify("gs://bucket/a\nb".to_owned()).unwrap_err(), ParseError::InvalidLocator);
    assert_eq!(classify("gs://bucket/a*b".to_owned()).unwrap_err(), ParseError::InvalidLocator);
    assert_eq!(classify("gs://bucket/.".to_owned()).unwrap_err(), ParseError::InvalidLocator);
    assert_eq!(classify("gs://bucket/...".to_owned()).unwrap_err(), ParseError::InvalidLocator);
    assert_eq!(
        classify("gs://bucket/.well-known/acme-challenge/x".to_owned()).unwrap_err(),
        ParseError::InvalidLocator
    );
    let too_long = format!("gs://bucket/{}", "o".repeat(1025));
    assert_eq!(classify(too_long).unwrap_err(), ParseError::InvalidLocator);
}

#[test]
fn gsurl_accessors_expose_parts() {
    let g = GsUrl { bucket: "bucket".to_owned(), object: Some("dir/a.txt".to_owned()) };
    assert_eq!(g.bucket(), "bucket");
    assert_eq!(g.object().map(|o| o.as_str()), Some("dir/a.txt"));
    let bare = GsUrl { bucket: "bucket".to_owned(), object: None };
    assert!(bare.object().is_none());
}

#[test]
fn cp_error_messages() {
    assert_eq!(CpError::Parse(ParseError::InvalidUrl).message(), "invalid url");
    assert_eq!(
        CpError::Parse(ParseError::InvalidLocator).message(),
        "invalid object locator"
    );
    assert_eq!(
        CpError::SourceOpenFailed("no such file".to_owned()).message(),
        "source path: no such file"
    );
    assert_eq!(
        CpError::DestinationCreateFailed("denied".to_owned()).message(),
        "destination path: denied"
    );
    assert_eq!(CpError::Exec("status 403".to_owned()).message(), "status 403");
}

#[test]
fn is_file_distinguishes_variants() {
    assert!(local("a").is_file());
    assert!(!remote("bucket", None).is_file());
}

#[test]
fn try_from_matches_classify() {
    match DataPath::try_from("gs://bucket/obj".to_owned()) {
        Ok(DataPath::Gs(g)) => {
            assert_eq!(g.bucket, "bucket");
            assert_eq!(g.object.as_deref(), Some("obj"));
        }
        _ => panic!("expected remote locator"),
    }
}

#[test]
fn validate_covers_all_four_pairings() {
    assert_eq!(
        validate(&local("a"), &local("b")).unwrap_err(),
        DirectionError::BothLocal
    );
    assert_eq!(
        validate(&remote("bucket-a", Some("x")), &remote("bucket-b", Some("y"))).unwrap_err(),
        DirectionError::BothRemote
    );
    assert_eq!(
        validate(&local("a"), &remote("bucket", None)).unwrap(),
        Direction::Upload
    );
    assert_eq!(
        validate(&remote("bucket", Some("x")), &local("a")).unwrap(),
        Direction::Download
    );
}

#[test]
fn direction_error_messages() {
    assert_eq!(
        DirectionError::BothLocal.message(),
        "source and destination are both located on local disk"
    );
    assert_eq!(
        DirectionError::BothRemote.message(),
        "source and destination are both located on gcs"
    );
}

#[test]
fn file_name_of_final_component() {
    assert_eq!(file_name_of("./report.csv").unwrap(), "report.csv");
    assert_eq!(file_name_of("a/b/c.txt").unwrap(), "c.txt");
    assert_eq!(file_name_of("a/b/").unwrap(), "b");
    assert_eq!(file_name_of("a/./.").unwrap(), "a");
    assert_eq!(file_name_of(".hidden").unwrap(), ".hidden");
}

#[test]
fn file_name_of_rejects_paths_without_one() {
    assert_eq!(file_name_of("").unwrap_err(), NameError::UnrepresentableFileName);
    assert_eq!(file_name_of("/").unwrap_err(), NameError::UnrepresentableFileName);
    assert_eq!(file_name_of("..").unwrap_err(), NameError::UnrepresentableFileName);
    assert_eq!(file_name_of("a/..").unwrap_err(), NameError::UnrepresentableFileName);
    assert_eq!(file_name_of(".").unwrap_err(), NameError::UnrepresentableFileName);
}

#[test]
fn resolve_object_name_joins_prefix() {
    let dst = GsUrl { bucket: "bucket".to_owned(), object: Some("dir".to_owned()) };
    assert_eq!(resolve_object_name(&dst, "a.txt").unwrap(), "dir/a.txt");
}

#[test]
fn resolve_object_name_without_prefix() {
    let dst = GsUrl { bucket: "bucket".to_owned(), object: None };
    assert_eq!(resolve_object_name(&dst, "a.txt").unwrap(), "a.txt");
}

#[test]
fn plan_upload_resolves_object_name() {
    match plan("./report.csv".to_owned(), "gs://bucket/incoming".to_owned()) {
        Ok(TransferPlan::Upload { src_path, bucket, object_name }) => {
            assert_eq!(src_path, "./report.csv");
            assert_eq!(bucket, "bucket");
            assert_eq!(object_name, "incoming/report.csv");
        }
        _ => panic!("expected an upload plan"),
    }
}

#[test]
fn plan_download_into_local_file() {
    match plan("gs://bucket/incoming/report.csv".to_owned(), "./out.csv".to_owned()) {
        Ok(TransferPlan::Download { bucket, object_name, dst_path }) => {
            assert_eq!(bucket, "bucket");
            assert_eq!(object_name, "incoming/report.csv");
            assert_eq!(dst_path, "./out.csv");
        }
        _ => panic!("expected a download plan"),
    }
}

#[test]
fn plan_rejects_both_local() {
    match plan("./a.txt".to_owned(), "./b.txt".to_owned()) {
        Err(CpError::Direction(e)) => {
            assert_eq!(e, DirectionError::BothLocal);
            assert_eq!(
                e.message(),
                "source and destination are both located on local disk"
            );
        }
        _ => panic!("expected a direction error"),
    }
}

#[test]
fn plan_rejects_both_remote() {
    match plan("gs://bucket-a/x".to_owned(), "gs://bucket-b/y".to_owned()) {
        Err(CpError::Direction(e)) => {
            assert_eq!(e, DirectionError::BothRemote);
            assert_eq!(e.message(), "source and destination are both located on gcs");
        }
        _ => panic!("expected a direction error"),
    }
}

#[test]
fn plan_rejects_two_bare_buckets_as_both_remote() {
    match plan("gs://bucket".to_owned(), "gs://bucket".to_owned()) {
        Err(CpError::Direction(e)) => assert_eq!(e, DirectionError::BothRemote),
        _ => panic!("expected a direction error"),
    }
}

#[test]
fn plan_download_requires_full_object_name() {
    match plan("gs://bucket".to_owned(), "./out".to_owned()) {
        Err(e @ CpError::MissingObjectName) => {
            assert_eq!(e.message(), "must provide a full object name to copy from");
        }
        _ => panic!("expected a missing object name error"),
    }
}

#[test]
fn plan_upload_requires_a_file_name() {
    match plan("..".to_owned(), "gs://bucket/incoming".to_owned()) {
        Err(CpError::Name(e)) => {
            assert_eq!(e, NameError::UnrepresentableFileName);
            assert_eq!(e.message(), "can't turn file_name into string");
        }
        _ => panic!("expected a name error"),
    }
}

#[test]
fn plan_reports_source_parse_error_first() {
    match plan("gs://".to_owned(), "gs://BAD/x".to_owned()) {
        Err(CpError::Parse(e)) => assert_eq!(e, ParseError::InvalidUrl),
        _ => panic!("expected a parse error"),
    }
}

#[test]
fn download_request_names_bucket_and_object() {
    let req = prepare_download("bucket", "obj").expect("request should build");
    assert_eq!(req.method().as_str(), "GET");
    let uri = req.uri().to_string();
    assert!(
        uri.starts_with("https://storage.googleapis.com/storage/v1/b/bucket/o/obj?alt=media"),
        "unexpected uri: {}",
        uri
    );
}

#[test]
fn download_request_builds_for_awkward_conforming_names() {
    // Every character here is allowed in an object name; the builder must
    // percent-encode what the request parser would reject and accept the rest.
    let odd = "dir/a b%c|d\\e^f\"g<h>i`j{k}l~m\u{e9}\u{1}n";
    let req = prepare_download("bucket", odd).expect("conforming names must build");
    assert_eq!(req.method().as_str(), "GET");
    let uri = req.uri().to_string();
    assert!(uri.contains("/b/bucket/o/"), "unexpected uri: {}", uri);
}

#[test]
fn upload_request_builds_for_awkward_conforming_names() {
    let odd = "in coming/r\u{e9}port|100%.csv";
    let req = prepare_upload("bucket", odd, b"x".to_vec()).expect("conforming names must build");
    assert_eq!(req.method().as_str(), "POST");
}

#[test]
fn download_request_rejects_bad_names() {
    match prepare_download("BAD", "obj") {
        Err(CpError::RequestBuild(_)) => {}
        _ => panic!("expected a request build error"),
    }
    match prepare_download("bucket", "") {
        Err(CpError::RequestBuild(_)) => {}
        _ => panic!("expected a request build error"),
    }
}

#[test]
fn upload_request_is_a_multipart_insert() {
    let req = prepare_upload("bucket", "incoming/report.csv", b"hello".to_vec())
        .expect("request should build");
    assert_eq!(req.method().as_str(), "POST");
    let uri = req.uri().to_string();
    assert!(
        uri.starts_with(
            "https://storage.googleapis.com/upload/storage/v1/b/bucket/o?uploadType=multipart"
        ),
        "unexpected uri: {}",
        uri
    );
    let ct = req
        .headers()
        .get(http::header::CONTENT_TYPE)
        .expect("content type set")
        .to_str()
        .unwrap()
        .to_owned();
    assert_eq!(ct, "multipart/related; boundary=tame_gcs");
    assert!(req.headers().get(http::header::CONTENT_LENGTH).is_some());
}

#[test]
fn upload_request_rejects_bad_names() {
    match prepare_upload("bucket", "", b"hello".to_vec()) {
        Err(CpError::RequestBuild(_)) => {}
        _ => panic!("expected a request build error"),
    }
    match prepare_upload("goog-bucket", "x", b"hello".to_vec()) {
        Err(CpError::RequestBuild(_)) => {}
        _ => panic!("expected a request build error"),
    }
}
