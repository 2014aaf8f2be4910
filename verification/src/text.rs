//! Text operations that the resolvers are built from, stated over the
//! character sequence that a string denotes.

use vstd::prelude::*;
use vstd::string::*;

verus! {

/// The character sequence of an optional owned string.
pub open spec fn option_text(text: Option<String>) -> Option<Seq<char>> {
    match text {
        Some(t) => Some(t@),
        None => None,
    }
}

/// The lowercase form of `text` under the Unicode lowercase mapping, as
/// `str::to_lowercase` of the standard library computes it.
pub uninterp spec fn lowercase_of(text: Seq<char>) -> Seq<char>;

/// Calls `str::to_lowercase`.
///
/// Assumed, not proved: the returned string is the Unicode lowercase form of
/// the argument, which depends on the argument alone.
#[verifier::external_body]
pub(crate) fn to_lowercase(text: &str) -> (r: String)
    ensures
        r@ == lowercase_of(text@),
{
    text.to_lowercase()
}

/// Whether two strings denote the same character sequence.
pub fn str_eq(a: &str, b: &str) -> (r: bool)
    ensures
        r == (a@ == b@),
{
    let left = a.to_owned();
    let right = b.to_owned();
    left == right
}

/// What is left of `text` once `prefix` is taken from its front, where it
/// starts with `prefix`.
pub open spec fn strip_prefix_spec(text: Seq<char>, prefix: Seq<char>) -> Option<Seq<char>> {
    if prefix.is_prefix_of(text) {
        Some(text.skip(prefix.len() as int))
    } else {
        None
    }
}

/// Removes `prefix` from the front of `text`, or returns `None` where `text`
/// does not start with it.
pub fn strip_prefix<'a>(text: &'a str, prefix: &str) -> (r: Option<&'a str>)
    ensures
        match r {
            Some(rest) => strip_prefix_spec(text@, prefix@) == Some(rest@),
            None => strip_prefix_spec(text@, prefix@) is None,
        },
{
    let text_len = text.unicode_len();
    let prefix_len = prefix.unicode_len();
    if prefix_len <= text_len {
        let head = text.substring_char(0, prefix_len);
        if str_eq(head, prefix) {
            let rest = text.substring_char(prefix_len, text_len);
            assert(text@.subrange(prefix_len as int, text_len as int) == text@.skip(
                prefix_len as int,
            ));
            return Some(rest);
        }
    }
    None
}

/// The final component of a file path, as `Path::file_name` of the standard
/// library computes it; `None` where the path has no such component.
pub uninterp spec fn path_file_name(path: Seq<char>) -> Option<Seq<char>>;

/// Whether position `i` of `name` holds its last `.`.
pub open spec fn is_final_dot(name: Seq<char>, i: int) -> bool {
    &&& 0 <= i < name.len()
    &&& name[i] == '.'
    &&& forall|j: int| i < j < name.len() ==> name[j] != '.'
}

/// The extension of a file name: what follows its last `.`, unless the name
/// holds no `.` or its only `.` is its first character.
pub open spec fn extension_in(name: Seq<char>) -> Option<Seq<char>> {
    if exists|i: int| 0 < i && is_final_dot(name, i) {
        let i = choose|i: int| 0 < i && is_final_dot(name, i);
        Some(name.skip(i + 1))
    } else {
        None
    }
}

/// The extension of a file path: that of its final component.
pub open spec fn path_extension_spec(path: Seq<char>) -> Option<Seq<char>> {
    match path_file_name(path) {
        Some(name) => extension_in(name),
        None => None,
    }
}

/// Calls `Path::extension` of the standard library on `path`.
///
/// Assumed, not proved: the result is the extension of the path's final
/// component as the library documents it, that is the portion of the file
/// name after its last `.`, and `None` where there is no file name, no `.`
/// in it, or only a leading one.
#[verifier::external_body]
pub(crate) fn file_extension(path: &str) -> (r: Option<String>)
    ensures
        option_text(r) == match path_file_name(path@) {
            Some(name) => extension_in(name),
            None => None,
        },
{
    std::path::Path::new(path).extension().and_then(|e| e.to_str()).map(|e| e.to_string())
}

} // verus!
