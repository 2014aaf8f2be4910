//! The error type shared by every fallible operation of the crate.
//!
//! Failures of the codec, storage and URI libraries are carried unchanged in
//! a variant of their own, so the root cause is never lost; the variants that
//! this crate raises itself carry the offending scheme or format name.

use vstd::prelude::*;
use vstd::string::*;

verus! {

/// Error of the Arrow codecs, carried as an opaque value.
#[verifier::external_type_specification]
#[verifier::external_body]
pub struct ExArrowError(::arrow::error::ArrowError);

/// Error of the host's I/O layer, carried as an opaque value.
#[verifier::external_type_specification]
#[verifier::external_body]
pub struct ExIoError(std::io::Error);

/// Error of the object store client, carried as an opaque value.
#[verifier::external_type_specification]
#[verifier::external_body]
pub struct ExObjectStoreError(object_store::Error);

/// Error of the object store's path grammar, carried as an opaque value.
#[verifier::external_type_specification]
#[verifier::external_body]
pub struct ExStorePathError(object_store::path::Error);

/// Wraps an error of the path grammar with `From<path::Error>` of
/// `object_store::Error`, which yields its `InvalidPath` variant.
///
/// Nothing is assumed of the result: both errors are opaque here.
#[verifier::external_body]
pub(crate) fn invalid_path(source: object_store::path::Error) -> (r: object_store::Error) {
    object_store::Error::from(source)
}

/// Error of the ORC codec, carried as an opaque value.
#[verifier::external_type_specification]
#[verifier::external_body]
pub struct ExOrcError(orc_rust::error::OrcError);

/// A free-form error, carried as an opaque value.
#[verifier::external_type_specification]
#[verifier::external_body]
pub struct ExAnyhowError(anyhow::Error);

/// Error of the Parquet codec, carried as an opaque value.
#[verifier::external_type_specification]
#[verifier::external_body]
pub struct ExParquetError(parquet::errors::ParquetError);

/// Error of an integer conversion, carried as an opaque value.
#[verifier::external_type_specification]
#[verifier::external_body]
pub struct ExParseIntError(core::num::ParseIntError);

/// Error of building a URI, carried as an opaque value.
#[verifier::external_type_specification]
#[verifier::external_body]
pub struct ExUriBuildError(fluent_uri::error::BuildError);

/// Error of parsing a URI, carried as an opaque value together with the
/// input it was raised for.
#[verifier::external_type_specification]
#[verifier::external_body]
#[verifier::reject_recursive_types(I)]
pub struct ExUriParseError<I>(fluent_uri::error::ParseError<I>);

/// Error of resolving a URI reference, carried as an opaque value.
#[verifier::external_type_specification]
#[verifier::external_body]
pub struct ExUriResolveError(fluent_uri::error::ResolveError);

/// Everything that can go wrong in this crate.
#[derive(Debug)]
pub enum InnoFileError {
    /// A record codec failed to encode or decode.
    Arrow(::arrow::error::ArrowError),
    /// Neither an explicit format nor a path extension names a format.
    FileFormatNotFound,
    /// The named format has no codec; the name is carried as given.
    FileFormatNotSupported(String),
    /// The named file system has no backend; the name is carried as given.
    FileSystemNotSupported(String),
    /// The host's I/O layer failed.
    Io(std::io::Error),
    /// The object store client failed.
    ObjectStore(object_store::Error),
    /// The ORC codec failed.
    Orc(orc_rust::error::OrcError),
    /// Any other failure.
    Other(anyhow::Error),
    /// The Parquet codec failed.
    Parquet(parquet::errors::ParquetError),
    /// A numeric component, such as a URI port, does not fit its type.
    ParseInt(core::num::ParseIntError),
    /// The scheme of a location selects no backend; the scheme is carried
    /// as given.
    SchemeNotSupported(String),
    /// A URI could not be built.
    UriBuild(fluent_uri::error::BuildError),
    /// A location is not a well-formed URI reference.
    UriParse(fluent_uri::error::ParseError<String>),
    /// A URI reference could not be resolved.
    UriResolve(fluent_uri::error::ResolveError),
}

/// Whether `text` is `prefix` followed by what `cause` displays as.
pub open spec fn displays_after<T: core::fmt::Display>(
    prefix: Seq<char>,
    cause: &T,
    text: Seq<char>,
) -> bool {
    exists|detail: String| #[trigger]
        to_string_from_display_ensures::<T>(cause, detail) && text == prefix + detail@
}

impl InnoFileError {
    /// Whether `text` is the message of this error: a fixed phrase for its
    /// kind, followed by the offending name or by what the wrapped cause
    /// displays as.
    pub open spec fn message_is(self, text: Seq<char>) -> bool {
        match self {
            InnoFileError::Arrow(e) => displays_after("ArrowError: "@, &e, text),
            InnoFileError::FileFormatNotFound => text == "File format not found"@,
            InnoFileError::FileFormatNotSupported(name) => text == "File format not supported: "@
                + name@,
            InnoFileError::FileSystemNotSupported(name) => text == "File system not supported: "@
                + name@,
            InnoFileError::Io(e) => displays_after("IoError: "@, &e, text),
            InnoFileError::ObjectStore(e) => displays_after("ObjectStoreError: "@, &e, text),
            InnoFileError::Orc(e) => displays_after("OrcError: "@, &e, text),
            InnoFileError::Other(e) => displays_after(""@, &e, text),
            InnoFileError::Parquet(e) => displays_after("ParquetError: "@, &e, text),
            InnoFileError::ParseInt(e) => displays_after("ParseIntError: "@, &e, text),
            InnoFileError::SchemeNotSupported(scheme) => text == "Scheme not supported: "@
                + scheme@,
            InnoFileError::UriBuild(e) => displays_after("UriBuildError: "@, &e, text),
            InnoFileError::UriParse(e) => displays_after("UriParseError: "@, &e, text),
            InnoFileError::UriResolve(e) => displays_after("UriResolveError: "@, &e, text),
        }
    }

    /// The message of this error, for a diagnostic.
    pub fn message(&self) -> (r: String)
        ensures
            self.message_is(r@),
    {
        match self {
            InnoFileError::Arrow(e) => after("ArrowError: ", e.to_string()),
            InnoFileError::FileFormatNotFound => "File format not found".to_owned(),
            InnoFileError::FileFormatNotSupported(name) => "File format not supported: ".to_owned().concat(
                name.as_str(),
            ),
            InnoFileError::FileSystemNotSupported(name) => "File system not supported: ".to_owned().concat(
                name.as_str(),
            ),
            InnoFileError::Io(e) => after("IoError: ", e.to_string()),
            InnoFileError::ObjectStore(e) => after("ObjectStoreError: ", e.to_string()),
            InnoFileError::Orc(e) => after("OrcError: ", e.to_string()),
            InnoFileError::Other(e) => after("", e.to_string()),
            InnoFileError::Parquet(e) => after("ParquetError: ", e.to_string()),
            InnoFileError::ParseInt(e) => after("ParseIntError: ", e.to_string()),
            InnoFileError::SchemeNotSupported(scheme) => "Scheme not supported: ".to_owned().concat(
                scheme.as_str(),
            ),
            InnoFileError::UriBuild(e) => after("UriBuildError: ", e.to_string()),
            InnoFileError::UriParse(e) => after("UriParseError: ", e.to_string()),
            InnoFileError::UriResolve(e) => after("UriResolveError: ", e.to_string()),
        }
    }
}

/// `prefix` followed by `detail`.
fn after(prefix: &str, detail: String) -> (r: String)
    ensures
        r@ == prefix@ + detail@,
{
    prefix.to_owned().concat(detail.as_str())
}

/// The result type of every fallible operation of the crate.
pub type InnoFileResult<T, E = InnoFileError> = Result<T, E>;

impl From<::arrow::error::ArrowError> for InnoFileError {
    fn from(value: ::arrow::error::ArrowError) -> (r: Self) {
        InnoFileError::Arrow(value)
    }
}

impl vstd::std_specs::convert::FromSpecImpl<::arrow::error::ArrowError> for InnoFileError {
    open spec fn obeys_from_spec() -> bool {
        true
    }

    open spec fn from_spec(value: ::arrow::error::ArrowError) -> Self {
        InnoFileError::Arrow(value)
    }
}

impl From<std::io::Error> for InnoFileError {
    fn from(value: std::io::Error) -> (r: Self) {
        InnoFileError::Io(value)
    }
}

impl vstd::std_specs::convert::FromSpecImpl<std::io::Error> for InnoFileError {
    open spec fn obeys_from_spec() -> bool {
        true
    }

    open spec fn from_spec(value: std::io::Error) -> Self {
        InnoFileError::Io(value)
    }
}

impl From<object_store::Error> for InnoFileError {
    fn from(value: object_store::Error) -> (r: Self) {
        InnoFileError::ObjectStore(value)
    }
}

impl vstd::std_specs::convert::FromSpecImpl<object_store::Error> for InnoFileError {
    open spec fn obeys_from_spec() -> bool {
        true
    }

    open spec fn from_spec(value: object_store::Error) -> Self {
        InnoFileError::ObjectStore(value)
    }
}

impl From<object_store::path::Error> for InnoFileError {
    /// A failure of the object store, around the store's "invalid path"
    /// error for `value`.
    fn from(value: object_store::path::Error) -> (r: Self)
        ensures
            r is ObjectStore,
    {
        InnoFileError::ObjectStore(invalid_path(value))
    }
}

impl vstd::std_specs::convert::FromSpecImpl<object_store::path::Error> for InnoFileError {
    /// The store's wrapping error is opaque, so this conversion follows no
    /// spec function; `from` states the variant itself.
    open spec fn obeys_from_spec() -> bool {
        false
    }

    open spec fn from_spec(value: object_store::path::Error) -> Self {
        arbitrary()
    }
}

impl From<orc_rust::error::OrcError> for InnoFileError {
    fn from(value: orc_rust::error::OrcError) -> (r: Self) {
        InnoFileError::Orc(value)
    }
}

impl vstd::std_specs::convert::FromSpecImpl<orc_rust::error::OrcError> for InnoFileError {
    open spec fn obeys_from_spec() -> bool {
        true
    }

    open spec fn from_spec(value: orc_rust::error::OrcError) -> Self {
        InnoFileError::Orc(value)
    }
}

impl From<anyhow::Error> for InnoFileError {
    fn from(value: anyhow::Error) -> (r: Self) {
        InnoFileError::Other(value)
    }
}

impl vstd::std_specs::convert::FromSpecImpl<anyhow::Error> for InnoFileError {
    open spec fn obeys_from_spec() -> bool {
        true
    }

    open spec fn from_spec(value: anyhow::Error) -> Self {
        InnoFileError::Other(value)
    }
}

impl From<parquet::errors::ParquetError> for InnoFileError {
    fn from(value: parquet::errors::ParquetError) -> (r: Self) {
        InnoFileError::Parquet(value)
    }
}

impl vstd::std_specs::convert::FromSpecImpl<parquet::errors::ParquetError> for InnoFileError {
    open spec fn obeys_from_spec() -> bool {
        true
    }

    open spec fn from_spec(value: parquet::errors::ParquetError) -> Self {
        InnoFileError::Parquet(value)
    }
}

impl From<core::num::ParseIntError> for InnoFileError {
    fn from(value: core::num::ParseIntError) -> (r: Self) {
        InnoFileError::ParseInt(value)
    }
}

impl vstd::std_specs::convert::FromSpecImpl<core::num::ParseIntError> for InnoFileError {
    open spec fn obeys_from_spec() -> bool {
        true
    }

    open spec fn from_spec(value: core::num::ParseIntError) -> Self {
        InnoFileError::ParseInt(value)
    }
}

impl From<fluent_uri::error::BuildError> for InnoFileError {
    fn from(value: fluent_uri::error::BuildError) -> (r: Self) {
        InnoFileError::UriBuild(value)
    }
}

impl vstd::std_specs::convert::FromSpecImpl<fluent_uri::error::BuildError> for InnoFileError {
    open spec fn obeys_from_spec() -> bool {
        true
    }

    open spec fn from_spec(value: fluent_uri::error::BuildError) -> Self {
        InnoFileError::UriBuild(value)
    }
}

impl From<fluent_uri::error::ParseError<String>> for InnoFileError {
    fn from(value: fluent_uri::error::ParseError<String>) -> (r: Self) {
        InnoFileError::UriParse(value)
    }
}

impl vstd::std_specs::convert::FromSpecImpl<fluent_uri::error::ParseError<String>> for InnoFileError {
    open spec fn obeys_from_spec() -> bool {
        true
    }

    open spec fn from_spec(value: fluent_uri::error::ParseError<String>) -> Self {
        InnoFileError::UriParse(value)
    }
}

impl From<fluent_uri::error::ResolveError> for InnoFileError {
    fn from(value: fluent_uri::error::ResolveError) -> (r: Self) {
        InnoFileError::UriResolve(value)
    }
}

impl vstd::std_specs::convert::FromSpecImpl<fluent_uri::error::ResolveError> for InnoFileError {
    open spec fn obeys_from_spec() -> bool {
        true
    }

    open spec fn from_spec(value: fluent_uri::error::ResolveError) -> Self {
        InnoFileError::UriResolve(value)
    }
}

} // verus!
