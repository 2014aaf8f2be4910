//! The components of a location identifier, as the URI grammar of RFC 3986
//! divides it.

use vstd::prelude::*;
use crate::text::option_text;

verus! {

/// Whether `text` is a well-formed URI reference.
pub uninterp spec fn uri_ref_is_valid(text: Seq<char>) -> bool;

/// The scheme of the URI reference `text`, where it has one.
pub uninterp spec fn uri_ref_scheme(text: Seq<char>) -> Option<Seq<char>>;

/// The host of the URI reference `text`, where it has an authority.
pub uninterp spec fn uri_ref_host(text: Seq<char>) -> Option<Seq<char>>;

/// The port of the URI reference `text`, where it has an authority:
/// `Ok(None)` for an absent or empty port, `Err` for one that is no `u16`.
pub uninterp spec fn uri_ref_port(text: Seq<char>) -> Option<Result<Option<u16>, ()>>;

/// The path of the URI reference `text`.
pub uninterp spec fn uri_ref_path(text: Seq<char>) -> Seq<char>;

/// The components of a location identifier that the resolvers read.
#[derive(Debug)]
pub struct Location {
    /// The scheme, where the identifier has one.
    pub scheme: Option<String>,
    /// The host, where the identifier has an authority.
    pub host: Option<String>,
    /// The port as a number, where the identifier has an authority.
    pub port: Option<Result<Option<u16>, core::num::ParseIntError>>,
    /// The path; always present, possibly empty.
    pub path: String,
}

/// A port conversion with the error's payload left out.
pub open spec fn port_outcome(
    port: Option<Result<Option<u16>, core::num::ParseIntError>>,
) -> Option<Result<Option<u16>, ()>> {
    match port {
        None => None,
        Some(Ok(p)) => Some(Ok(p)),
        Some(Err(_)) => Some(Err(())),
    }
}

/// Parses `text` with `UriRef::parse` of fluent-uri and reads its components
/// with `scheme`, `authority`, `Authority::host`, `Authority::port_to_u16`
/// and `path`.
///
/// Assumed, not proved: parsing succeeds exactly on the well-formed URI
/// references of RFC 3986, and each component of the result is the one that
/// the crate's accessor of that name returns; each depends on `text` alone.
#[verifier::external_body]
pub(crate) fn parse_location(text: &str) -> (r: Result<
    Location,
    fluent_uri::error::ParseError<String>,
>)
    ensures
        r is Ok <==> uri_ref_is_valid(text@),
        r matches Ok(location) ==> {
            &&& option_text(location.scheme) == uri_ref_scheme(text@)
            &&& option_text(location.host) == uri_ref_host(text@)
            &&& port_outcome(location.port) == uri_ref_port(text@)
            &&& location.path@ == uri_ref_path(text@)
        },
{
    let uri = fluent_uri::UriRef::parse(text.to_owned())?;
    let authority = uri.authority();
    Ok(Location {
        scheme: uri.scheme().map(|s| s.as_str().to_owned()),
        host: authority.map(|a| a.host().to_owned()),
        port: authority.map(|a| a.port_to_u16()),
        path: uri.path().as_str().to_owned(),
    })
}

} // verus!
