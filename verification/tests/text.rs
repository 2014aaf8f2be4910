use innofile::error::InnoFileError;
use innofile::text::{str_eq, strip_prefix};
use innofile::utils::{location_extension, path_extension};
use innofile::uri::Location;

#[test]
fn str_eq_compares_contents() {
    assert!(str_eq("csv", "csv"));
    assert!(str_eq("", ""));
    assert!(!str_eq("csv", "CSV"));
    assert!(!str_eq("csv", "csvx"));
    assert!(!str_eq("s3", "s3a"));
    assert!(str_eq("données", "données"));
}

#[test]
fn strip_prefix_removes_only_a_true_prefix() {
    assert_eq!(strip_prefix("file:///tmp/x", "file://"), Some("/tmp/x"));
    assert_eq!(strip_prefix("file://", "file://"), Some(""));
    assert_eq!(strip_prefix("file:/tmp/x", "file://"), None);
    assert_eq!(strip_prefix("/tmp/file://x", "file://"), None);
    assert_eq!(strip_prefix("abc", ""), Some("abc"));
    assert_eq!(strip_prefix("", "a"), None);
    assert_eq!(strip_prefix("étéx", "été"), Some("x"));
}

#[test]
fn path_extension_of_plain_paths() {
    assert_eq!(path_extension("a.dsv").unwrap(), Some("dsv".to_string()));
    assert_eq!(path_extension("/tmp/x.parquet").unwrap(), Some("parquet".to_string()));
    assert_eq!(path_extension("a.tar.gz").unwrap(), Some("gz".to_string()));
    assert_eq!(path_extension("dir/A.TSV").unwrap(), Some("TSV".to_string()));
}

#[test]
fn path_extension_is_absent_without_an_embedded_dot() {
    assert_eq!(path_extension("noext").unwrap(), None);
    assert_eq!(path_extension(".hidden").unwrap(), None);
    assert_eq!(path_extension("dir.d/file").unwrap(), None);
    assert_eq!(path_extension("").unwrap(), None);
    assert_eq!(path_extension("a/..").unwrap(), None);
    assert_eq!(path_extension("/").unwrap(), None);
}

#[test]
fn path_extension_may_be_empty() {
    assert_eq!(path_extension("a.").unwrap(), Some(String::new()));
}

#[test]
fn path_extension_reads_the_path_component_only() {
    assert_eq!(path_extension("s3://bucket/dir/a.dsv").unwrap(), Some("dsv".to_string()));
    assert_eq!(path_extension("file:///tmp/x.orc").unwrap(), Some("orc".to_string()));
    assert_eq!(path_extension("http://example.com").unwrap(), None);
    assert_eq!(path_extension("x.csv?name=y.json").unwrap(), Some("csv".to_string()));
    assert_eq!(path_extension("x.csv#part.json").unwrap(), Some("csv".to_string()));
    assert_eq!(path_extension("s3://bucket.name/key").unwrap(), None);
}

#[test]
fn path_extension_rejects_a_malformed_location() {
    assert!(matches!(path_extension("/tmp/a b.csv"), Err(InnoFileError::UriParse(_))));
    assert!(matches!(path_extension("a%zz.csv"), Err(InnoFileError::UriParse(_))));
    assert!(matches!(path_extension("s3://[::1/x.csv"), Err(InnoFileError::UriParse(_))));
}

#[test]
fn location_extension_reads_the_path_field() {
    let location = Location {
        scheme: Some("s3".to_string()),
        host: Some("bucket.v1".to_string()),
        port: Some(Ok(None)),
        path: "/data/part-0.psv".to_string(),
    };
    assert_eq!(location_extension(&location), Some("psv".to_string()));
    let location = Location { scheme: None, host: None, port: None, path: "data".to_string() };
    assert_eq!(location_extension(&location), None);
}

#[test]
fn errors_wrap_their_cause() {
    let e: InnoFileError = std::io::Error::other("disk").into();
    assert!(matches!(e, InnoFileError::Io(_)));
    let e: InnoFileError = "70000".parse::<u16>().unwrap_err().into();
    assert!(matches!(e, InnoFileError::ParseInt(_)));
    let e: InnoFileError = anyhow::Error::msg("other").into();
    assert!(matches!(e, InnoFileError::Other(_)));
    let e: InnoFileError = ::arrow::error::ArrowError::ParseError("bad".to_string()).into();
    assert!(matches!(e, InnoFileError::Arrow(_)));
    let e: InnoFileError =
        ::parquet::errors::ParquetError::General("bad".to_string()).into();
    assert!(matches!(e, InnoFileError::Parquet(_)));
    let e: InnoFileError = ::object_store::Error::NotImplemented {
        operation: "copy".to_string(),
        implementer: "test".to_string(),
    }
    .into();
    assert!(matches!(e, InnoFileError::ObjectStore(_)));
    let e: InnoFileError =
        fluent_uri::UriRef::parse("a b".to_string()).unwrap_err().into();
    assert!(matches!(e, InnoFileError::UriParse(_)));
}

#[test]
fn errors_carry_the_offending_name() {
    let e = InnoFileError::SchemeNotSupported("ftp".to_string());
    assert_eq!(format!("{:?}", e), "SchemeNotSupported(\"ftp\")");
    let e = InnoFileError::FileFormatNotSupported("xyz".to_string());
    assert_eq!(format!("{:?}", e), "FileFormatNotSupported(\"xyz\")");
    assert_eq!(format!("{:?}", InnoFileError::FileFormatNotFound), "FileFormatNotFound");
}

#[test]
fn messages_name_the_offender() {
    assert_eq!(InnoFileError::FileFormatNotFound.message(), "File format not found");
    assert_eq!(
        InnoFileError::FileFormatNotSupported("xyz".to_string()).message(),
        "File format not supported: xyz"
    );
    assert_eq!(
        InnoFileError::FileSystemNotSupported("tape".to_string()).message(),
        "File system not supported: tape"
    );
    assert_eq!(
        InnoFileError::SchemeNotSupported("FTP".to_string()).message(),
        "Scheme not supported: FTP"
    );
    assert_eq!(
        InnoFileError::SchemeNotSupported(String::new()).message(),
        "Scheme not supported: "
    );
}

#[test]
fn messages_keep_the_message_of_the_cause() {
    let e: InnoFileError = std::io::Error::other("disk on fire").into();
    assert_eq!(e.message(), "IoError: disk on fire");
    let cause = "70000".parse::<u16>().unwrap_err();
    assert_eq!(InnoFileError::ParseInt(cause.clone()).message(), format!("ParseIntError: {}", cause));
    let e: InnoFileError = anyhow::Error::msg("Example file contains no records").into();
    assert_eq!(e.message(), "Example file contains no records");
    let e: InnoFileError = ::arrow::error::ArrowError::ParseError("bad".to_string()).into();
    assert_eq!(e.message(), "ArrowError: Parser error: bad");
    let e: InnoFileError = ::parquet::errors::ParquetError::General("bad".to_string()).into();
    assert_eq!(e.message(), "ParquetError: Parquet error: bad");
    let cause = fluent_uri::UriRef::parse("a b".to_string()).unwrap_err();
    let text = format!("UriParseError: {}", cause);
    assert_eq!(InnoFileError::UriParse(cause).message(), text);
    assert_eq!(text, "UriParseError: unexpected character at index 1");
    match path_extension("a b") {
        Err(e) => assert_eq!(e.message(), "UriParseError: unexpected character at index 1"),
        other => panic!("unexpected: {:?}", other),
    }
}

#[test]
fn errors_wrap_the_causes_of_the_uri_and_orc_libraries() {
    let cause = fluent_uri::UriRef::builder()
        .path(fluent_uri::encoding::EStr::new_or_panic("//not-a-path"))
        .build()
        .unwrap_err();
    let text = format!("UriBuildError: {}", cause);
    let e: InnoFileError = cause.into();
    assert!(matches!(e, InnoFileError::UriBuild(_)));
    assert_eq!(e.message(), text);

    let base = fluent_uri::Uri::parse("http://example.com/#fragment").unwrap();
    let cause = fluent_uri::UriRef::parse("a.csv").unwrap().resolve_against(&base).unwrap_err();
    let text = format!("UriResolveError: {}", cause);
    let e: InnoFileError = cause.into();
    assert!(matches!(e, InnoFileError::UriResolve(_)));
    assert_eq!(e.message(), text);

    let cause = match orc_rust::ArrowReaderBuilder::try_new(bytes::Bytes::from_static(b"no orc")) {
        Err(cause) => cause,
        Ok(_) => panic!("six bytes are no ORC file"),
    };
    let text = format!("OrcError: {}", cause);
    let e: InnoFileError = cause.into();
    assert!(matches!(e, InnoFileError::Orc(_)));
    assert_eq!(e.message(), text);

    let cause = ::object_store::Error::NotImplemented {
        operation: "copy".to_string(),
        implementer: "test".to_string(),
    };
    let text = format!("ObjectStoreError: {}", cause);
    assert_eq!(InnoFileError::ObjectStore(cause).message(), text);
}

#[test]
fn path_extension_goes_by_the_final_component() {
    assert_eq!(path_extension("dir/b.c/").unwrap(), Some("c".to_string()));
    assert_eq!(path_extension("dir/b.c/.").unwrap(), Some("c".to_string()));
    assert_eq!(path_extension("dir.x/b").unwrap(), None);
    assert_eq!(path_extension("...").unwrap(), Some(String::new()));
    assert_eq!(path_extension("..a").unwrap(), Some("a".to_string()));
    assert_eq!(path_extension(".a.b").unwrap(), Some("b".to_string()));
    assert_eq!(path_extension("..").unwrap(), None);
    assert_eq!(path_extension(".").unwrap(), None);
}
