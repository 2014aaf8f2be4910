//! The remote backend: objects of a key/object store.
//!
//! The store client itself is a type parameter: this module fixes what the
//! backend decides, and the client's calls are made by whoever owns it.

use vstd::prelude::*;
use crate::error::{InnoFileError, InnoFileResult};
use crate::fs::properties::{
    lemma_pairs_map_absent, lemma_pairs_map_has_key, pairs_map, Properties,
};

verus! {

/// What is needed to reach a bucket of an S3-compatible store.
#[derive(Debug)]
pub struct S3Config {
    /// The scheme alias that selected the store, as the location gave it.
    pub scheme: String,
    /// The bucket, taken from the location's host.
    pub bucket_name: Option<String>,
    /// Options handed to the store client verbatim.
    pub properties: Properties,
}

/// A configuration option of the S3 store client, carried as an opaque
/// value.
#[verifier::external_type_specification]
#[verifier::external_body]
pub struct ExAmazonS3ConfigKey(object_store::aws::AmazonS3ConfigKey);

/// Whether `key` names a configuration option of the S3 store client.
pub uninterp spec fn s3_config_key_is_known(key: Seq<char>) -> bool;

/// Parses `key` with `AmazonS3ConfigKey::from_str` of object_store.
///
/// Assumed, not proved: whether the client knows an option of that name
/// depends on the name alone.
#[verifier::external_body]
pub(crate) fn parse_s3_config_key(key: &str) -> (r: Result<
    object_store::aws::AmazonS3ConfigKey,
    object_store::Error,
>)
    ensures
        r is Ok <==> s3_config_key_is_known(key@),
{
    key.parse()
}

/// Whether the store client knows every key of a list of properties.
pub open spec fn keys_known(properties: Seq<(String, String)>) -> bool {
    forall|i: int|
        0 <= i < properties.len() ==> s3_config_key_is_known(#[trigger] properties[i].0@)
}

/// Whether the store client knows every key of a map of properties.
pub open spec fn map_keys_known(map: Map<Seq<char>, Seq<char>>) -> bool {
    forall|key: Seq<char>| #[trigger] map.contains_key(key) ==> s3_config_key_is_known(key)
}

/// The store client knows every key of a list exactly when it knows every
/// key of the map that the list denotes.
pub proof fn lemma_keys_known(pairs: Seq<(String, String)>)
    ensures
        keys_known(pairs) <==> map_keys_known(pairs_map(pairs)),
{
    if keys_known(pairs) {
        assert forall|key: Seq<char>| #[trigger]
            pairs_map(pairs).contains_key(key) implies s3_config_key_is_known(key) by {
            if forall|i: int| 0 <= i < pairs.len() ==> pairs[i].0@ != key {
                lemma_pairs_map_absent(pairs, key);
            } else {
                let i = choose|i: int| 0 <= i < pairs.len() && pairs[i].0@ == key;
                assert(s3_config_key_is_known(pairs[i].0@));
            }
        }
    }
    if map_keys_known(pairs_map(pairs)) {
        assert forall|i: int| 0 <= i < pairs.len() implies s3_config_key_is_known(
            #[trigger] pairs[i].0@,
        ) by {
            lemma_pairs_map_has_key(pairs, i);
        }
    }
}

impl S3Config {
    /// The configuration of the store that `scheme` selected, for the
    /// bucket `bucket_name` and with `properties` as options.
    ///
    /// Fails with `ObjectStore` exactly when the store client does not know
    /// one of the keys; otherwise the three arguments are kept as given.
    pub fn new_s3(scheme: String, bucket_name: Option<String>, properties: Properties) -> (r:
        InnoFileResult<S3Config>)
        ensures
            if map_keys_known(properties@) {
                &&& r matches Ok(config)
                &&& config.scheme == scheme
                &&& config.bucket_name == bucket_name
                &&& config.properties == properties
            } else {
                r matches Err(e) && e is ObjectStore
            },
    {
        let pairs = properties.pairs();
        proof {
            lemma_keys_known(pairs@);
        }
        let mut i: usize = 0;
        while i < pairs.len()
            invariant
                i <= pairs.len(),
                keys_known(pairs@) <==> map_keys_known(properties@),
                forall|j: int| 0 <= j < i ==> s3_config_key_is_known(#[trigger] pairs@[j].0@),
            decreases pairs.len() - i,
        {
            match parse_s3_config_key(pairs[i].0.as_str()) {
                Ok(_) => {},
                Err(e) => {
                    return Err(InnoFileError::ObjectStore(e));
                },
            }
            i += 1;
        }
        Ok(S3Config { scheme, bucket_name, properties })
    }
}

/// The key of an object in a store, carried as an opaque value.
#[verifier::external_type_specification]
#[verifier::external_body]
pub struct ExStorePath(object_store::path::Path);

/// Whether `c` is an ASCII control character.
pub open spec fn is_ascii_control(c: char) -> bool {
    c as u32 <= 0x1f || c as u32 == 0x7f
}

/// Whether the positions from `from` up to `to` of `key` hold one of its
/// segments: a run without `/` that reaches from one `/`, or the start, to
/// the next `/`, or the end.
pub open spec fn is_segment(key: Seq<char>, from: int, to: int) -> bool {
    &&& 0 <= from <= to <= key.len()
    &&& from == 0 || key[from - 1] == '/'
    &&& to == key.len() || key[to] == '/'
    &&& forall|k: int| from <= k < to ==> key[k] != '/'
}

/// Whether every segment of `key` can be part of a key: none is empty, none
/// is `.` or `..`, and none holds an ASCII control character.
pub open spec fn segments_are_valid(key: Seq<char>) -> bool {
    &&& forall|k: int| 0 <= k < key.len() ==> !is_ascii_control(#[trigger] key[k])
    &&& forall|from: int, to: int| #[trigger]
        is_segment(key, from, to) ==> {
            &&& from < to
            &&& key.subrange(from, to) != "."@
            &&& key.subrange(from, to) != ".."@
        }
}

/// Whether `path` is a key that the store's path grammar accepts: one
/// leading `/` and one trailing `/` are ignored, what is left is either
/// empty, which names the root, or has valid segments only.
pub open spec fn store_path_is_valid(path: Seq<char>) -> bool {
    let rest = if path.len() > 0 && path[0] == '/' {
        path.skip(1)
    } else {
        path
    };
    rest.len() == 0 || segments_are_valid(
        if rest.last() == '/' {
            rest.drop_last()
        } else {
            rest
        },
    )
}

/// Parses `path` with `Path::parse` of object_store.
///
/// Assumed, not proved: parsing succeeds exactly on the texts of the
/// store's path grammar, as `store_path_is_valid` writes it down.
#[verifier::external_body]
pub(crate) fn parse_store_path(path: &str) -> (r: Result<
    object_store::path::Path,
    object_store::path::Error,
>)
    ensures
        r is Ok <==> store_path_is_valid(path@),
{
    object_store::path::Path::parse(path)
}

/// The key of the object at `path`.
///
/// Fails exactly when the store's path grammar rejects `path`, with the
/// store's "invalid path" error around the error of the grammar.
pub fn store_path(path: &str) -> (r: InnoFileResult<object_store::path::Path>)
    ensures
        r is Ok <==> store_path_is_valid(path@),
        r matches Err(e) ==> e is ObjectStore,
{
    match parse_store_path(path) {
        Ok(location) => Ok(location),
        Err(e) => Err(InnoFileError::from(e)),
    }
}

/// A failed store request.
#[derive(Debug)]
pub struct StoreFailure {
    /// Whether the store reported that the object does not exist.
    pub not_found: bool,
    /// The store's own error.
    pub error: object_store::Error,
}

/// Whether an object exists, as the outcome of a metadata request for it
/// tells: a "not found" failure means `false`, and every other failure is
/// handed on with the store's error unchanged.
pub open spec fn existence(head: Result<u64, StoreFailure>) -> InnoFileResult<bool> {
    match head {
        Ok(_) => Ok(true),
        Err(failure) => if failure.not_found {
            Ok(false)
        } else {
            Err(InnoFileError::ObjectStore(failure.error))
        },
    }
}

/// Whether an object exists, given the outcome of a metadata request for
/// it, which yields the object's size.
pub fn exists_from_head(head: Result<u64, StoreFailure>) -> (r: InnoFileResult<bool>)
    ensures
        r == existence(head),
{
    match head {
        Ok(_) => Ok(true),
        Err(failure) => {
            if failure.not_found {
                Ok(false)
            } else {
                Err(InnoFileError::ObjectStore(failure.error))
            }
        },
    }
}

/// Of all failures of a metadata request, "not found" alone means absence:
/// an object is reported present exactly when the request succeeded, absent
/// exactly when it failed with "not found", and every other failure stays a
/// failure.
pub proof fn lemma_only_not_found_means_absent(head: Result<u64, StoreFailure>)
    ensures
        existence(head) == Ok::<bool, InnoFileError>(true) <==> head is Ok,
        existence(head) == Ok::<bool, InnoFileError>(false) <==> (head matches Err(failure)
            && failure.not_found),
        existence(head) is Err <==> (head matches Err(failure) && !failure.not_found),
{
}

/// A file system over the objects of one store.
#[derive(Debug)]
pub struct ObjectFS<S> {
    scheme: String,
    store: S,
}

impl<S> ObjectFS<S> {
    /// The scheme this file system was made for.
    pub closed spec fn scheme_text(self) -> Seq<char> {
        self.scheme@
    }

    /// The store client.
    pub closed spec fn store_handle(self) -> S {
        self.store
    }

    /// A file system for `scheme` over `store`.
    pub fn from_store(scheme: &str, store: S) -> (r: Self)
        ensures
            r.scheme_text() == scheme@,
            r.store_handle() == store,
    {
        ObjectFS { scheme: scheme.to_owned(), store }
    }

    /// The scheme this file system was made for.
    pub fn scheme(&self) -> (r: &str)
        ensures
            r@ == self.scheme_text(),
    {
        self.scheme.as_str()
    }

    /// The store client.
    pub fn store(&self) -> (r: &S)
        ensures
            *r == self.store_handle(),
    {
        &self.store
    }

    /// A handle for the existing object at `path`, given the outcome of a
    /// metadata request for it.
    ///
    /// Every failure of the request is handed on with the store's error
    /// unchanged, a "not found" failure too.
    pub fn open_from_head(&self, path: &str, head: Result<u64, StoreFailure>) -> (r: InnoFileResult<
        ObjectFile<S>,
    >) where S: Clone
        ensures
            match head {
                Ok(_) => r matches Ok(file) && file.path_text() == path@ && cloned(
                    self.store_handle(),
                    file.store_handle(),
                ),
                Err(failure) => r matches Err(InnoFileError::ObjectStore(e)) && e == failure.error,
            },
    {
        match head {
            Ok(_) => Ok(self.make_file(path)),
            Err(failure) => Err(InnoFileError::ObjectStore(failure.error)),
        }
    }

    /// A handle for the object at `path`, sharing this file system's store.
    pub fn make_file(&self, path: &str) -> (r: ObjectFile<S>) where S: Clone
        ensures
            r.path_text() == path@,
            cloned(self.store_handle(), r.store_handle()),
    {
        ObjectFile::new(path, self.store.clone())
    }
}

/// One object of a store, named by its path.
#[derive(Debug)]
pub struct ObjectFile<S> {
    path: String,
    store: S,
}

impl<S> ObjectFile<S> {
    /// The path that names the object.
    pub closed spec fn path_text(self) -> Seq<char> {
        self.path@
    }

    /// The store client.
    pub closed spec fn store_handle(self) -> S {
        self.store
    }

    /// A handle for the object at `path` of `store`.
    pub fn new(path: &str, store: S) -> (r: Self)
        ensures
            r.path_text() == path@,
            r.store_handle() == store,
    {
        ObjectFile { path: path.to_owned(), store }
    }

    /// The path that names the object, as it was given.
    pub fn path(&self) -> (r: &str)
        ensures
            r@ == self.path_text(),
    {
        self.path.as_str()
    }

    /// The store client.
    pub fn store(&self) -> (r: &S)
        ensures
            *r == self.store_handle(),
    {
        &self.store
    }
}

} // verus!
