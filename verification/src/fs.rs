//! The location resolver: from a location identifier to a storage backend.

use vstd::prelude::*;
use crate::error::{InnoFileError, InnoFileResult};
use crate::fs::local::LocalFS;
use crate::fs::object_store::{map_keys_known, S3Config};
use crate::fs::properties::{insert_all, Properties};
use crate::text::{lowercase_of, option_text, str_eq, to_lowercase};
use crate::uri::{
    parse_location, uri_ref_host, uri_ref_is_valid, uri_ref_port, uri_ref_scheme, Location,
};

pub mod local;
pub mod object_store;
pub mod properties;

verus! {

/// The class of storage that a scheme selects.
#[derive(Debug, Clone, Copy, PartialEq, Eq, Structural)]
pub enum BackendKind {
    /// The host's own file system.
    Local,
    /// An S3-compatible object store.
    S3,
}

/// The backend that a scheme in lowercase selects: `file` the local one,
/// `s3` and `s3a` the object store, any other name none.
pub open spec fn backend_kind(lowercase_scheme: Seq<char>) -> Option<BackendKind> {
    if lowercase_scheme == "file"@ {
        Some(BackendKind::Local)
    } else if lowercase_scheme == "s3"@ || lowercase_scheme == "s3a"@ {
        Some(BackendKind::S3)
    } else {
        None
    }
}

/// The backend that an optional scheme selects, whatever its letter case,
/// or the scheme itself where it selects none. No scheme selects the local
/// backend.
pub open spec fn selected_backend(scheme: Option<Seq<char>>) -> Result<BackendKind, Seq<char>> {
    match scheme {
        None => Ok(BackendKind::Local),
        Some(s) => match backend_kind(lowercase_of(s)) {
            Some(kind) => Ok(kind),
            None => Err(s),
        },
    }
}

/// The backend that a scheme in lowercase selects, if any.
pub fn backend_for(lowercase_scheme: &str) -> (r: Option<BackendKind>)
    ensures
        r == backend_kind(lowercase_scheme@),
{
    if str_eq(lowercase_scheme, "file") {
        Some(BackendKind::Local)
    } else if str_eq(lowercase_scheme, "s3") || str_eq(lowercase_scheme, "s3a") {
        Some(BackendKind::S3)
    } else {
        None
    }
}

/// A resolved backend, with what is needed to construct it.
#[derive(Debug)]
pub enum Backend {
    /// The local backend.
    Local(LocalFS),
    /// The remote backend over an S3-compatible store.
    S3(S3Config),
}

impl Backend {
    /// The class of this backend.
    pub open spec fn kind(self) -> BackendKind {
        match self {
            Backend::Local(_) => BackendKind::Local,
            Backend::S3(_) => BackendKind::S3,
        }
    }
}

/// The port that a conversion yields: the number where there is one, and
/// none where there is no authority, no port, an empty port or a failure.
pub open spec fn port_value<E>(port: Option<Result<Option<u16>, E>>) -> Option<u16> {
    match port {
        Some(Ok(p)) => p,
        _ => None,
    }
}

/// Collects what selects and configures a storage backend.
#[derive(Debug)]
pub struct FileSystemBuilder {
    scheme: Option<String>,
    host: Option<String>,
    port: Option<u16>,
    properties: Properties,
}

impl Default for FileSystemBuilder {
    fn default() -> (r: Self)
        ensures
            r.scheme_text() is None,
            r.host_text() is None,
            r.port_number() is None,
            r.property_map() == Map::<Seq<char>, Seq<char>>::empty(),
    {
        FileSystemBuilder::new()
    }
}

impl FileSystemBuilder {
    /// The scheme set so far.
    pub closed spec fn scheme_text(self) -> Option<Seq<char>> {
        option_text(self.scheme)
    }

    /// The host set so far.
    pub closed spec fn host_text(self) -> Option<Seq<char>> {
        option_text(self.host)
    }

    /// The port set so far.
    pub closed spec fn port_number(self) -> Option<u16> {
        self.port
    }

    /// The configuration properties set so far, as a map.
    pub closed spec fn property_map(self) -> Map<Seq<char>, Seq<char>> {
        self.properties@
    }

    /// The configuration properties set so far.
    pub closed spec fn held_properties(self) -> Properties {
        self.properties
    }

    /// A builder with nothing set.
    pub fn new() -> (r: Self)
        ensures
            r.scheme_text() is None,
            r.host_text() is None,
            r.port_number() is None,
            r.property_map() == Map::<Seq<char>, Seq<char>>::empty(),
    {
        FileSystemBuilder { scheme: None, host: None, port: None, properties: Properties::new() }
    }

    /// A builder from the components of a parsed location.
    ///
    /// Fails with `ParseInt`, carrying the conversion's error, exactly when
    /// the location has a port that is no `u16`; otherwise the builder holds
    /// the location's scheme, host and port, and no property.
    pub fn from_location(location: Location) -> (r: InnoFileResult<Self>)
        ensures
            match location.port {
                Some(Err(e)) => r == Err::<Self, InnoFileError>(InnoFileError::ParseInt(e)),
                _ => {
                    &&& r matches Ok(b)
                    &&& b.scheme_text() == option_text(location.scheme)
                    &&& b.host_text() == option_text(location.host)
                    &&& b.port_number() == port_value(location.port)
                    &&& b.property_map() == Map::<Seq<char>, Seq<char>>::empty()
                },
            },
    {
        let port = match location.port {
            Some(Err(e)) => {
                return Err(InnoFileError::ParseInt(e));
            },
            Some(Ok(p)) => p,
            None => None,
        };
        Ok(
            FileSystemBuilder {
                scheme: location.scheme,
                host: location.host,
                port,
                properties: Properties::new(),
            },
        )
    }

    /// A builder from a location identifier.
    ///
    /// Fails with `UriParse` exactly when `path` is no well-formed URI
    /// reference, and with `ParseInt` exactly when it is one whose port is
    /// no `u16`. Otherwise the builder holds the scheme, host and port of
    /// the reference, each absent where the reference has none, and no
    /// property.
    pub fn from_path(path: &str) -> (r: InnoFileResult<Self>)
        ensures
            match r {
                Ok(b) => {
                    &&& uri_ref_is_valid(path@)
                    &&& !(uri_ref_port(path@) matches Some(Err(_)))
                    &&& b.scheme_text() == uri_ref_scheme(path@)
                    &&& b.host_text() == uri_ref_host(path@)
                    &&& b.port_number() == port_value(uri_ref_port(path@))
                    &&& b.property_map() == Map::<Seq<char>, Seq<char>>::empty()
                },
                Err(e) => if uri_ref_is_valid(path@) {
                    uri_ref_port(path@) matches Some(Err(_)) && e is ParseInt
                } else {
                    e is UriParse
                },
            },
    {
        match parse_location(path) {
            Ok(location) => FileSystemBuilder::from_location(location),
            Err(e) => Err(InnoFileError::UriParse(e)),
        }
    }

    /// Sets or clears the scheme.
    pub fn with_scheme(self, scheme: Option<&str>) -> (r: Self)
        ensures
            r.scheme_text() == match scheme {
                Some(s) => Some(s@),
                None => None,
            },
            r.host_text() == self.host_text(),
            r.port_number() == self.port_number(),
            r.property_map() == self.property_map(),
    {
        let scheme = match scheme {
            Some(s) => Some(s.to_owned()),
            None => None,
        };
        FileSystemBuilder { scheme, host: self.host, port: self.port, properties: self.properties }
    }

    /// Sets or clears the host.
    pub fn with_host(self, host: Option<&str>) -> (r: Self)
        ensures
            r.scheme_text() == self.scheme_text(),
            r.host_text() == match host {
                Some(h) => Some(h@),
                None => None,
            },
            r.port_number() == self.port_number(),
            r.property_map() == self.property_map(),
    {
        let host = match host {
            Some(h) => Some(h.to_owned()),
            None => None,
        };
        FileSystemBuilder { scheme: self.scheme, host, port: self.port, properties: self.properties }
    }

    /// Sets or clears the port.
    pub fn with_port(self, port: Option<u16>) -> (r: Self)
        ensures
            r.scheme_text() == self.scheme_text(),
            r.host_text() == self.host_text(),
            r.port_number() == port,
            r.property_map() == self.property_map(),
    {
        FileSystemBuilder { scheme: self.scheme, host: self.host, port, properties: self.properties }
    }

    /// Sets the property `key` to `value`, replacing an earlier value of
    /// the same key.
    pub fn with_property(self, key: &str, value: &str) -> (r: Self)
        ensures
            r.scheme_text() == self.scheme_text(),
            r.host_text() == self.host_text(),
            r.port_number() == self.port_number(),
            r.property_map() == self.property_map().insert(key@, value@),
    {
        FileSystemBuilder {
            scheme: self.scheme,
            host: self.host,
            port: self.port,
            properties: self.properties.insert(key, value),
        }
    }

    /// Sets each property of `properties` in order, as `with_property` does.
    pub fn with_properties(self, properties: Vec<(String, String)>) -> (r: Self)
        ensures
            r.scheme_text() == self.scheme_text(),
            r.host_text() == self.host_text(),
            r.port_number() == self.port_number(),
            r.property_map() == insert_all(self.property_map(), properties@),
    {
        FileSystemBuilder {
            scheme: self.scheme,
            host: self.host,
            port: self.port,
            properties: self.properties.insert_pairs(properties),
        }
    }

    /// Whether the S3 store client knows the key of every property.
    pub open spec fn properties_known(self) -> bool {
        map_keys_known(self.property_map())
    }

    /// Whether `outcome` is what resolving this builder yields.
    ///
    /// No scheme, or one that reads `file` in lowercase, yields the local
    /// backend. One that reads `s3` or `s3a` in lowercase yields the remote
    /// backend, configured with the scheme as given, the host as bucket and
    /// the properties as they are held, unless the store client does not
    /// know one of the keys, which is reported as a failure of the store.
    /// Any other scheme is reported as not supported, carried as given.
    pub open spec fn resolves_to(self, outcome: InnoFileResult<Backend>) -> bool {
        match selected_backend(self.scheme_text()) {
            Ok(BackendKind::Local) => outcome matches Ok(Backend::Local(_)),
            Ok(BackendKind::S3) => if self.properties_known() {
                &&& outcome matches Ok(Backend::S3(config))
                &&& Some(config.scheme@) == self.scheme_text()
                &&& option_text(config.bucket_name) == self.host_text()
                &&& config.properties == self.held_properties()
            } else {
                outcome matches Err(e) && e is ObjectStore
            },
            Err(scheme) => {
                &&& outcome matches Err(InnoFileError::SchemeNotSupported(name))
                &&& name@ == scheme
            },
        }
    }

    fn resolve(self) -> (r: InnoFileResult<Backend>)
        ensures
            self.resolves_to(r),
    {
        match self.scheme {
            None => Ok(Backend::Local(LocalFS)),
            Some(scheme) => {
                let lowercase = to_lowercase(scheme.as_str());
                match backend_for(lowercase.as_str()) {
                    Some(BackendKind::Local) => Ok(Backend::Local(LocalFS)),
                    Some(BackendKind::S3) => {
                        match S3Config::new_s3(scheme, self.host, self.properties) {
                            Ok(config) => Ok(Backend::S3(config)),
                            Err(e) => Err(e),
                        }
                    },
                    None => Err(InnoFileError::SchemeNotSupported(scheme)),
                }
            },
        }
    }

    /// Selects the backend for the blocking execution model.
    pub fn build_sync(self) -> (r: InnoFileResult<Backend>)
        ensures
            self.resolves_to(r),
    {
        self.resolve()
    }

    /// Selects the backend for the cooperative execution model; the
    /// selection is the one of the blocking model.
    pub fn build_async(self) -> (r: InnoFileResult<Backend>)
        ensures
            self.resolves_to(r),
    {
        self.resolve()
    }

    /// The scheme set so far.
    pub fn scheme(&self) -> (r: Option<&str>)
        ensures
            self.scheme_text() == match r {
                Some(s) => Some(s@),
                None => None,
            },
    {
        match &self.scheme {
            Some(s) => Some(s.as_str()),
            None => None,
        }
    }

    /// The host set so far.
    pub fn host(&self) -> (r: Option<&str>)
        ensures
            self.host_text() == match r {
                Some(h) => Some(h@),
                None => None,
            },
    {
        match &self.host {
            Some(h) => Some(h.as_str()),
            None => None,
        }
    }

    /// The port set so far.
    pub fn port(&self) -> (r: Option<u16>)
        ensures
            r == self.port_number(),
    {
        self.port
    }

    /// The value of the property `key`, if it is set.
    pub fn property(&self, key: &str) -> (r: Option<&str>)
        ensures
            match r {
                Some(value) => self.property_map().contains_key(key@) && self.property_map()[key@]
                    == value@,
                None => !self.property_map().contains_key(key@),
            },
    {
        self.properties.get(key)
    }

    /// The number of properties set so far.
    pub fn property_count(&self) -> (r: usize)
        ensures
            r == self.property_map().len(),
    {
        self.properties.len()
    }

    /// The properties set so far.
    pub fn properties(&self) -> (r: &Properties)
        ensures
            *r == self.held_properties(),
            r@ == self.property_map(),
    {
        &self.properties
    }
}

/// A scheme selects a backend only where its lowercase form is one of the
/// three recognized names, and each name selects one backend.
pub proof fn lemma_backend_kind_table(lowercase_scheme: Seq<char>)
    ensures
        backend_kind(lowercase_scheme) == Some(BackendKind::Local) <==> lowercase_scheme
            == "file"@,
        backend_kind(lowercase_scheme) == Some(BackendKind::S3) <==> (lowercase_scheme == "s3"@
            || lowercase_scheme == "s3a"@),
{
    reveal_strlit("file");
    reveal_strlit("s3");
    reveal_strlit("s3a");
    assert("file"@.len() != "s3"@.len());
    assert("file"@.len() != "s3a"@.len());
}

/// A location without a scheme always selects the local backend: the
/// builder made from it resolves to the local backend and to nothing else.
pub proof fn lemma_no_scheme_is_local(builder: FileSystemBuilder, outcome: InnoFileResult<Backend>)
    requires
        builder.scheme_text() is None,
        builder.resolves_to(outcome),
    ensures
        outcome matches Ok(Backend::Local(_)),
{
}

/// Two builders of the same scheme never select different backends, and
/// where the scheme selects none, both report it.
pub proof fn lemma_selection_by_scheme(
    a: FileSystemBuilder,
    b: FileSystemBuilder,
    outcome_a: InnoFileResult<Backend>,
    outcome_b: InnoFileResult<Backend>,
)
    requires
        a.scheme_text() == b.scheme_text(),
        a.resolves_to(outcome_a),
        b.resolves_to(outcome_b),
    ensures
        outcome_a is Ok && outcome_b is Ok ==> outcome_a->Ok_0.kind() == outcome_b->Ok_0.kind(),
        outcome_a matches Err(InnoFileError::SchemeNotSupported(x)) ==> (outcome_b matches Err(
            InnoFileError::SchemeNotSupported(y),
        ) && x@ == y@),
{
}

} // verus!
