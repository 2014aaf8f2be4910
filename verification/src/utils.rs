//! Helpers on location identifiers.

use vstd::prelude::*;
use crate::error::{InnoFileError, InnoFileResult};
use crate::text::{file_extension, option_text, path_extension_spec};
use crate::uri::{parse_location, uri_ref_is_valid, uri_ref_path, Location};

verus! {

/// The file extension of a parsed location: that of its path.
pub fn location_extension(location: &Location) -> (r: Option<String>)
    ensures
        option_text(r) == path_extension_spec(location.path@),
{
    file_extension(location.path.as_str())
}

/// The file extension of the path of a location identifier.
///
/// Fails with `UriParse` exactly when `path` is no well-formed URI
/// reference; otherwise returns the extension of the reference's path
/// component, `None` where it has none.
pub fn path_extension(path: &str) -> (r: InnoFileResult<Option<String>>)
    ensures
        match r {
            Ok(extension) => uri_ref_is_valid(path@) && option_text(extension)
                == path_extension_spec(uri_ref_path(path@)),
            Err(e) => !uri_ref_is_valid(path@) && e is UriParse,
        },
{
    match parse_location(path) {
        Ok(location) => Ok(location_extension(&location)),
        Err(e) => Err(InnoFileError::UriParse(e)),
    }
}

} // verus!
