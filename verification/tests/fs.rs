use std::io::{Read, Write};
use std::path::Path;

use innofile::error::InnoFileError;
use innofile::fs::local::LocalFS;
use innofile::fs::object_store::S3Config;
use innofile::fs::properties::Properties;
use innofile::fs::{backend_for, Backend, BackendKind, FileSystemBuilder};
use innofile::uri::Location;
use tempfile::tempdir;

#[test]
fn fs_test_file_system() {
    let dir = tempdir().unwrap();
    let path = dir.path().join("does_not_exist.txt");
    let path = path.to_str().unwrap();
    let backend = FileSystemBuilder::from_path(path).unwrap().build_sync().unwrap();
    assert!(matches!(backend, Backend::Local(_)));
    assert!(!Path::new(&LocalFS::strip_scheme(path)).exists());
}

#[test]
fn local_test_local_fs() {
    let content = "Hello, LocalFS!\n";

    let dir = tempdir().unwrap();
    let path = dir.path().join("hello").join("local_fs.txt");
    let path = path.to_str().unwrap();
    let paths = [format!("file://{}", path), path.to_string()];

    for path in paths.as_ref() {
        let backend = FileSystemBuilder::from_path(path).unwrap().build_sync().unwrap();
        assert!(matches!(backend, Backend::Local(_)));
        let native_path = LocalFS::strip_scheme(path);
        assert_eq!(native_path, paths[1]);
        let native_path = Path::new(&native_path);

        assert!(!native_path.exists());

        let parent = tempfile::Builder::new()
            .prefix("hello")
            .rand_bytes(0)
            .tempdir_in(dir.path())
            .unwrap();
        assert_eq!(Some(parent.path()), native_path.parent());
        let output_file = tempfile::Builder::new()
            .prefix("local_fs")
            .suffix(".txt")
            .rand_bytes(0)
            .tempfile_in(parent.path())
            .unwrap();
        assert_eq!(output_file.path(), native_path);
        assert!(native_path.exists());

        output_file.reopen().unwrap().write_all(content.as_bytes()).unwrap();

        let mut input_file = output_file.reopen().unwrap();
        assert_eq!(input_file.metadata().unwrap().len(), content.len() as u64);

        let mut buf = String::new();
        input_file.read_to_string(&mut buf).unwrap();
        assert_eq!(buf, content);

        output_file.close().unwrap();
        assert!(!native_path.exists());

        let parent_path = parent.path().to_path_buf();
        assert!(parent_path.exists());
        parent.close().unwrap();
        assert!(!parent_path.exists());
    }
}

#[test]
fn local_scheme_is_file() {
    assert_eq!(LocalFS.scheme(), "file");
}

#[test]
fn strip_scheme_removes_the_local_prefix() {
    assert_eq!(LocalFS::strip_scheme("file:///tmp/a.csv"), "/tmp/a.csv");
    assert_eq!(LocalFS::strip_scheme("file:///tmp/hello/local_fs.txt"), "/tmp/hello/local_fs.txt");
    assert_eq!(LocalFS::strip_scheme("file://tmp/a.csv"), "tmp/a.csv");
    assert_eq!(LocalFS::strip_scheme("file://"), "");
    assert_eq!(LocalFS::strip_scheme("file://file:///tmp/a.csv"), "file:///tmp/a.csv");
}

#[test]
fn strip_scheme_takes_other_text_verbatim() {
    assert_eq!(LocalFS::strip_scheme("/tmp/a.csv"), "/tmp/a.csv");
    assert_eq!(LocalFS::strip_scheme("/tmp/x.txt"), "/tmp/x.txt");
    assert_eq!(LocalFS::strip_scheme("rel/x.txt"), "rel/x.txt");
    assert_eq!(LocalFS::strip_scheme("relative/a.csv"), "relative/a.csv");
    assert_eq!(LocalFS::strip_scheme("file:/tmp/a.csv"), "file:/tmp/a.csv");
    assert_eq!(LocalFS::strip_scheme("file:/tmp/x.txt"), "file:/tmp/x.txt");
    assert_eq!(LocalFS::strip_scheme("file:/"), "file:/");
    assert_eq!(LocalFS::strip_scheme("file:tmp"), "file:tmp");
    assert_eq!(LocalFS::strip_scheme("FILE:///tmp/a.csv"), "FILE:///tmp/a.csv");
    assert_eq!(LocalFS::strip_scheme("s3://b/k.csv"), "s3://b/k.csv");
    assert_eq!(LocalFS::strip_scheme("s3://bucket/file://x"), "s3://bucket/file://x");
    assert_eq!(LocalFS::strip_scheme(""), "");
}

#[test]
fn new_builder_is_empty() {
    for builder in [FileSystemBuilder::new(), FileSystemBuilder::default()] {
        assert_eq!(builder.scheme(), None);
        assert_eq!(builder.host(), None);
        assert_eq!(builder.port(), None);
        assert_eq!(builder.property_count(), 0);
        assert_eq!(builder.property("region"), None);
    }
}

#[test]
fn from_path_without_scheme() {
    let builder = FileSystemBuilder::from_path("/tmp/data/a.csv").unwrap();
    assert_eq!(builder.scheme(), None);
    assert_eq!(builder.host(), None);
    assert_eq!(builder.port(), None);
    assert_eq!(builder.property_count(), 0);
    let builder = FileSystemBuilder::from_path("relative/a.csv").unwrap();
    assert_eq!(builder.scheme(), None);
    assert_eq!(builder.host(), None);
    let builder = FileSystemBuilder::from_path("").unwrap();
    assert_eq!(builder.scheme(), None);
}

#[test]
fn from_path_reads_scheme_host_and_port() {
    let builder = FileSystemBuilder::from_path("s3://bucket:9000/dir/key.parquet").unwrap();
    assert_eq!(builder.scheme(), Some("s3"));
    assert_eq!(builder.host(), Some("bucket"));
    assert_eq!(builder.port(), Some(9000));

    let builder = FileSystemBuilder::from_path("S3A://Bucket/key").unwrap();
    assert_eq!(builder.scheme(), Some("S3A"));
    assert_eq!(builder.host(), Some("Bucket"));
    assert_eq!(builder.port(), None);

    let builder = FileSystemBuilder::from_path("file:///tmp/a.csv").unwrap();
    assert_eq!(builder.scheme(), Some("file"));
    assert_eq!(builder.host(), Some(""));
    assert_eq!(builder.port(), None);

    let builder = FileSystemBuilder::from_path("foo://localhost:/x").unwrap();
    assert_eq!(builder.host(), Some("localhost"));
    assert_eq!(builder.port(), None);

    let builder = FileSystemBuilder::from_path("foo://localhost:0080/x").unwrap();
    assert_eq!(builder.port(), Some(80));

    let builder = FileSystemBuilder::from_path("mailto:user@example.com").unwrap();
    assert_eq!(builder.scheme(), Some("mailto"));
    assert_eq!(builder.host(), None);
    assert_eq!(builder.port(), None);
}

#[test]
fn from_path_rejects_a_port_that_is_no_u16() {
    assert!(matches!(
        FileSystemBuilder::from_path("foo://localhost:123456/"),
        Err(InnoFileError::ParseInt(_))
    ));
    assert!(matches!(
        FileSystemBuilder::from_path("s3://bucket:65536/key"),
        Err(InnoFileError::ParseInt(_))
    ));
    assert_eq!(FileSystemBuilder::from_path("s3://bucket:65535/key").unwrap().port(), Some(65535));
}

#[test]
fn from_path_rejects_a_malformed_location() {
    assert!(matches!(
        FileSystemBuilder::from_path("/tmp/a b.csv"),
        Err(InnoFileError::UriParse(_))
    ));
    assert!(matches!(
        FileSystemBuilder::from_path("s3://bucket:port/key"),
        Err(InnoFileError::UriParse(_))
    ));
    assert!(matches!(FileSystemBuilder::from_path("s3://[::1/key"), Err(InnoFileError::UriParse(_))));
    assert!(matches!(FileSystemBuilder::from_path("100%"), Err(InnoFileError::UriParse(_))));
}

#[test]
fn from_location_takes_the_components() {
    let location = Location {
        scheme: Some("s3".to_string()),
        host: Some("bucket".to_string()),
        port: Some(Ok(Some(443))),
        path: "/key".to_string(),
    };
    let builder = FileSystemBuilder::from_location(location).unwrap();
    assert_eq!(builder.scheme(), Some("s3"));
    assert_eq!(builder.host(), Some("bucket"));
    assert_eq!(builder.port(), Some(443));
    assert_eq!(builder.property_count(), 0);

    let location = Location {
        scheme: None,
        host: Some("h".to_string()),
        port: Some(Ok(None)),
        path: String::new(),
    };
    let builder = FileSystemBuilder::from_location(location).unwrap();
    assert_eq!(builder.scheme(), None);
    assert_eq!(builder.host(), Some("h"));
    assert_eq!(builder.port(), None);

    let location = Location { scheme: None, host: None, port: None, path: "x".to_string() };
    let builder = FileSystemBuilder::from_location(location).unwrap();
    assert_eq!(builder.host(), None);
    assert_eq!(builder.port(), None);
}

#[test]
fn from_location_hands_on_the_port_error() {
    let error = "123456".parse::<u16>().unwrap_err();
    let location = Location {
        scheme: Some("s3".to_string()),
        host: Some("bucket".to_string()),
        port: Some(Err(error.clone())),
        path: "/key".to_string(),
    };
    match FileSystemBuilder::from_location(location) {
        Err(InnoFileError::ParseInt(e)) => assert_eq!(e, error),
        other => panic!("unexpected: {:?}", other),
    }
}

#[test]
fn setters_set_and_clear() {
    let builder = FileSystemBuilder::new()
        .with_scheme(Some("s3"))
        .with_host(Some("bucket"))
        .with_port(Some(9000));
    assert_eq!(builder.scheme(), Some("s3"));
    assert_eq!(builder.host(), Some("bucket"));
    assert_eq!(builder.port(), Some(9000));
    let builder = builder.with_host(None);
    assert_eq!(builder.scheme(), Some("s3"));
    assert_eq!(builder.host(), None);
    assert_eq!(builder.port(), Some(9000));
    let builder = builder.with_scheme(None).with_port(None);
    assert_eq!(builder.scheme(), None);
    assert_eq!(builder.port(), None);
}

#[test]
fn with_property_inserts_and_replaces() {
    let builder = FileSystemBuilder::new().with_property("region", "eu-west-1");
    assert_eq!(builder.property_count(), 1);
    assert_eq!(builder.property("region"), Some("eu-west-1"));
    assert_eq!(builder.property("Region"), None);

    let builder = builder.with_property("endpoint", "http://localhost:4566");
    assert_eq!(builder.property_count(), 2);
    assert_eq!(builder.property("region"), Some("eu-west-1"));
    assert_eq!(builder.property("endpoint"), Some("http://localhost:4566"));

    let builder = builder.with_property("region", "us-east-1");
    assert_eq!(builder.property_count(), 2);
    assert_eq!(builder.property("region"), Some("us-east-1"));
    assert_eq!(builder.property("endpoint"), Some("http://localhost:4566"));

    let builder = builder.with_property("", "");
    assert_eq!(builder.property_count(), 3);
    assert_eq!(builder.property(""), Some(""));
}

#[test]
fn with_properties_inserts_in_order() {
    let pair = |k: &str, v: &str| (k.to_string(), v.to_string());
    let builder = FileSystemBuilder::new()
        .with_property("region", "r0")
        .with_properties(vec![pair("token", "t1"), pair("region", "r1"), pair("token", "t2")]);
    assert_eq!(builder.property_count(), 2);
    assert_eq!(builder.property("region"), Some("r1"));
    assert_eq!(builder.property("token"), Some("t2"));

    let builder = builder.with_properties(Vec::new());
    assert_eq!(builder.property_count(), 2);
    assert_eq!(builder.property("region"), Some("r1"));
}

#[test]
fn with_properties_equals_repeated_with_property() {
    let pair = |k: &str, v: &str| (k.to_string(), v.to_string());
    let pairs = vec![pair("a", "1"), pair("b", "2"), pair("a", "3"), pair("c", "4")];
    let all_at_once = FileSystemBuilder::new().with_properties(pairs.clone());
    let mut one_by_one = FileSystemBuilder::new();
    for (k, v) in &pairs {
        one_by_one = one_by_one.with_property(k, v);
    }
    assert_eq!(all_at_once.property_count(), one_by_one.property_count());
    for key in ["a", "b", "c", "d"] {
        assert_eq!(all_at_once.property(key), one_by_one.property(key));
    }
    assert_eq!(all_at_once.property("a"), Some("3"));
}

#[test]
fn backend_for_knows_three_names() {
    assert_eq!(backend_for("file"), Some(BackendKind::Local));
    assert_eq!(backend_for("s3"), Some(BackendKind::S3));
    assert_eq!(backend_for("s3a"), Some(BackendKind::S3));
    assert_eq!(backend_for("FILE"), None);
    assert_eq!(backend_for("s3n"), None);
    assert_eq!(backend_for("s"), None);
    assert_eq!(backend_for(""), None);
    assert_eq!(backend_for("http"), None);
}

#[test]
fn no_scheme_selects_the_local_backend() {
    assert!(matches!(FileSystemBuilder::new().build_sync(), Ok(Backend::Local(_))));
    assert!(matches!(FileSystemBuilder::new().build_async(), Ok(Backend::Local(_))));
    let configured = FileSystemBuilder::new()
        .with_host(Some("bucket"))
        .with_port(Some(1))
        .with_property("not-a-key", "x");
    assert!(matches!(configured.build_sync(), Ok(Backend::Local(_))));
    for path in ["/tmp/a.csv", "a.csv", "", "//host/a.csv", "?q", "#f", "../a"] {
        let builder = FileSystemBuilder::from_path(path).unwrap();
        assert_eq!(builder.scheme(), None);
        assert!(matches!(builder.build_sync(), Ok(Backend::Local(_))));
    }
}

#[test]
fn the_local_scheme_selects_the_local_backend_in_any_case() {
    for scheme in ["file", "FILE", "File", "fILE"] {
        let builder = FileSystemBuilder::new().with_scheme(Some(scheme));
        assert!(matches!(builder.build_sync(), Ok(Backend::Local(_))));
        let builder = FileSystemBuilder::new().with_scheme(Some(scheme));
        assert!(matches!(builder.build_async(), Ok(Backend::Local(_))));
    }
    let builder = FileSystemBuilder::from_path("FILE:///tmp/a.csv").unwrap();
    assert!(matches!(builder.build_sync(), Ok(Backend::Local(_))));
}

#[test]
fn the_s3_aliases_select_the_remote_backend() {
    for scheme in ["s3", "s3a", "S3", "S3A", "s3A"] {
        let location = format!("{}://my-bucket/dir/key.parquet", scheme);
        let builder = FileSystemBuilder::from_path(&location)
            .unwrap()
            .with_property("region", "eu-west-1")
            .with_property("endpoint", "http://localhost:4566")
            .with_property("region", "us-east-1");
        match builder.build_sync().unwrap() {
            Backend::S3(config) => {
                assert_eq!(config.scheme, scheme);
                assert_eq!(config.bucket_name.as_deref(), Some("my-bucket"));
                assert_eq!(
                    config.properties.pairs(),
                    &vec![
                        ("region".to_string(), "us-east-1".to_string()),
                        ("endpoint".to_string(), "http://localhost:4566".to_string()),
                    ]
                );
            }
            other => panic!("unexpected: {:?}", other),
        }
    }
    let builder = FileSystemBuilder::new().with_scheme(Some("s3"));
    match builder.build_async().unwrap() {
        Backend::S3(config) => {
            assert_eq!(config.scheme, "s3");
            assert_eq!(config.bucket_name, None);
            assert!(config.properties.is_empty());
        }
        other => panic!("unexpected: {:?}", other),
    }
}

#[test]
fn an_unknown_scheme_is_reported_as_given() {
    for scheme in ["ftp", "HTTP", "s3n", "files", "gs"] {
        let builder = FileSystemBuilder::new().with_scheme(Some(scheme));
        match builder.build_sync() {
            Err(InnoFileError::SchemeNotSupported(name)) => assert_eq!(name, scheme),
            other => panic!("unexpected: {:?}", other),
        }
        let builder = FileSystemBuilder::new().with_scheme(Some(scheme));
        match builder.build_async() {
            Err(InnoFileError::SchemeNotSupported(name)) => assert_eq!(name, scheme),
            other => panic!("unexpected: {:?}", other),
        }
    }
    let builder = FileSystemBuilder::from_path("Http://example.com/a.csv").unwrap();
    match builder.build_sync() {
        Err(InnoFileError::SchemeNotSupported(name)) => assert_eq!(name, "Http"),
        other => panic!("unexpected: {:?}", other),
    }
}

#[test]
fn an_unknown_store_option_is_a_store_failure() {
    let builder = FileSystemBuilder::from_path("s3://bucket/key")
        .unwrap()
        .with_property("region", "eu-west-1")
        .with_property("no_such_option", "x");
    assert!(matches!(builder.build_sync(), Err(InnoFileError::ObjectStore(_))));
    let builder = FileSystemBuilder::new().with_scheme(Some("s3a")).with_property("Region", "x");
    assert!(matches!(builder.build_async(), Err(InnoFileError::ObjectStore(_))));
}

#[test]
fn new_s3_keeps_its_arguments() {
    let pairs = vec![
        ("aws_access_key_id".to_string(), "id".to_string()),
        ("secret_access_key".to_string(), "SECRET-REDACTED".to_string()),
        ("aws_endpoint".to_string(), "http://localhost:9000".to_string()),
    ];
    let properties = Properties::new().insert_pairs(pairs.clone());
    let config =
        S3Config::new_s3("s3a".to_string(), Some("bucket".to_string()), properties).unwrap();
    assert_eq!(config.scheme, "s3a");
    assert_eq!(config.bucket_name.as_deref(), Some("bucket"));
    assert_eq!(config.properties.pairs(), &pairs);

    let config = S3Config::new_s3("s3".to_string(), None, Properties::new()).unwrap();
    assert_eq!(config.bucket_name, None);
    assert!(config.properties.is_empty());
}

#[test]
fn new_s3_rejects_an_unknown_key() {
    let properties = Properties::new().insert("region", "r").insert("colour", "blue");
    assert!(matches!(
        S3Config::new_s3("s3".to_string(), None, properties),
        Err(InnoFileError::ObjectStore(_))
    ));
}

#[test]
fn properties_keep_one_pair_per_key_in_first_set_order() {
    let properties = Properties::default();
    assert!(properties.is_empty());
    assert_eq!(properties.len(), 0);
    assert_eq!(properties.get("a"), None);
    assert!(properties.pairs().is_empty());

    let properties = properties.insert("b", "1").insert("a", "2").insert("b", "3");
    assert!(!properties.is_empty());
    assert_eq!(properties.len(), 2);
    assert_eq!(properties.get("a"), Some("2"));
    assert_eq!(properties.get("b"), Some("3"));
    assert_eq!(properties.get("c"), None);
    assert_eq!(
        properties.pairs(),
        &vec![("b".to_string(), "3".to_string()), ("a".to_string(), "2".to_string())]
    );

    let properties = properties.insert_pairs(vec![
        ("c".to_string(), "4".to_string()),
        ("a".to_string(), "5".to_string()),
        ("c".to_string(), "6".to_string()),
    ]);
    assert_eq!(
        properties.pairs(),
        &vec![
            ("b".to_string(), "3".to_string()),
            ("a".to_string(), "5".to_string()),
            ("c".to_string(), "6".to_string()),
        ]
    );
}

#[test]
fn the_builder_hands_out_its_properties() {
    let builder = FileSystemBuilder::new().with_property("region", "r").with_property("token", "t");
    assert_eq!(builder.properties().len(), 2);
    assert_eq!(builder.properties().get("token"), Some("t"));
}
