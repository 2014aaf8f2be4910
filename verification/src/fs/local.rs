//! The local backend: files of the host's own file system.

use vstd::prelude::*;
use crate::text::{strip_prefix, strip_prefix_spec};

verus! {

/// The scheme name of the local backend.
pub open spec fn local_scheme() -> Seq<char> {
    "file"@
}

/// What a location of the local scheme starts with: the scheme and `://`.
pub open spec fn local_prefix() -> Seq<char> {
    "file://"@
}

/// The native path that a location denotes on the local backend: the
/// location without the prefix of the local scheme where it starts with
/// that prefix, else the location as it stands.
pub open spec fn local_path(location: Seq<char>) -> Seq<char> {
    match strip_prefix_spec(location, local_prefix()) {
        Some(rest) => rest,
        None => location,
    }
}

/// The backend over the host's native file system.
#[derive(Debug, Clone, Copy, Default)]
pub struct LocalFS;

impl LocalFS {
    /// The scheme that selects this backend.
    pub fn scheme(&self) -> (r: &'static str)
        ensures
            r@ == local_scheme(),
    {
        "file"
    }

    /// The native path of `path`: a leading `file://` is removed, once, so
    /// that `file:///tmp/x` yields `/tmp/x`; any other text is taken
    /// verbatim.
    pub fn strip_scheme(path: &str) -> (r: String)
        ensures
            r@ == local_path(path@),
    {
        match strip_prefix(path, "file://") {
            Some(rest) => rest.to_owned(),
            None => path.to_owned(),
        }
    }
}

} // verus!
