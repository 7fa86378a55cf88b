//! What the playlist reads of a file's path: its extension and its name.

use vstd::prelude::*;
use std::path::Path;
use crate::text::{lowercased, option_text, str_eq, texts, to_lowercase};

verus! {

/// The last component of a path, as the standard library's path type gives
/// it; `None` where the path has none.
pub uninterp spec fn path_file_name(path: Seq<char>) -> Option<Seq<char>>;

/// Where the last `.` stands in `name`; -1 if it has none.
pub open spec fn last_dot(name: Seq<char>) -> int
    decreases name.len(),
{
    if name.len() == 0 {
        -1
    } else if name.last() == '.' {
        name.len() - 1
    } else {
        last_dot(name.drop_last())
    }
}

/// The extension in a file name: what follows its last dot. A name without
/// a dot has none, and neither has a name whose only dot is its first
/// character.
pub open spec fn extension_in(name: Seq<char>) -> Option<Seq<char>> {
    let dot = last_dot(name);
    if dot <= 0 {
        None
    } else {
        Some(name.skip(dot + 1))
    }
}

/// The extension of a path, without its dot: that of its file name. A path
/// without a file name has none.
pub open spec fn path_extension(path: Seq<char>) -> Option<Seq<char>> {
    match path_file_name(path) {
        Some(name) => extension_in(name),
        None => None,
    }
}

/// Calls `Path::extension`. Trusted: the result is the extension of the
/// path's file name as the standard library documents it: none if the path
/// has no file name, none if the name holds no dot, none if its only dot
/// comes first, and otherwise what follows the last dot.
#[verifier::external_body]
pub(crate) fn extension_of(path: &str) -> (extension: Option<String>)
    ensures
        option_text(extension) == path_extension(path@),
{
    Path::new(path).extension().map(|e| e.to_string_lossy().into_owned())
}

/// Calls `Path::file_name`. Trusted: the result is the last component that
/// the standard library finds in the path, a function of the path's text
/// alone.
#[verifier::external_body]
pub(crate) fn file_name_of(path: &str) -> (name: Option<String>)
    ensures
        option_text(name) == path_file_name(path@),
{
    Path::new(path).file_name().map(|n| n.to_string_lossy().into_owned())
}

/// Whether `extension` is one of `extensions`, letter for letter.
pub fn extension_listed(extension: &str, extensions: &[&str]) -> (listed: bool)
    ensures
        listed == texts(extensions@).contains(extension@),
{
    let mut i: usize = 0;
    while i < extensions.len()
        invariant
            i <= extensions@.len(),
            forall|j: int| 0 <= j < i ==> texts(extensions@)[j] != extension@,
        decreases extensions@.len() - i,
    {
        if str_eq(extensions[i], extension) {
            assert(texts(extensions@)[i as int] == extension@);
            return true;
        }
        i += 1;
    }
    false
}

/// Whether a path with the given extensions is wanted: the path has an
/// extension, and its lower-case form is one of `extensions`.
pub open spec fn supported(path: Seq<char>, extensions: Seq<Seq<char>>) -> bool {
    match path_extension(path) {
        Some(extension) => extensions.contains(lowercased(extension)),
        None => false,
    }
}

/// Whether the file at `path` has one of `extensions`, whatever the letter
/// case of its own. The entries of `extensions` are expected in lower case.
pub fn has_supported_extension(path: &str, extensions: &[&str]) -> (wanted: bool)
    ensures
        wanted == supported(path@, texts(extensions@)),
{
    match extension_of(path) {
        Some(extension) => {
            let lower = to_lowercase(extension.as_str());
            extension_listed(lower.as_str(), extensions)
        },
        None => false,
    }
}

} // verus!
