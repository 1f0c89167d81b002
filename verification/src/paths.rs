//! File paths. The library reads two things off a path, its extension and
//! its last component, and leaves the rest to `std`.

use std::path::Path;
use vstd::prelude::*;

verus! {

#[verifier::external_type_specification]
#[verifier::external_body]
pub struct ExPath(Path);

/// What `Path::extension` finds, as text: the part of the file name behind
/// its last dot. There is none for a path without a file name, for a file
/// name without a dot or one that only begins with its dot, nor for an
/// extension that is not valid Unicode.
pub uninterp spec fn extension_of(path: &Path) -> Option<Seq<char>>;

/// What `Path::file_name` finds, as text: the last component of the path.
/// There is none where the path ends in `..` or has no component. What is
/// not valid Unicode in it is replaced.
pub uninterp spec fn file_name_of(path: &Path) -> Option<Seq<char>>;

/// `Path::extension`, turned into a string where it is valid Unicode. The
/// contract only names the result.
#[verifier::external_body]
pub(crate) fn extension_text(path: &Path) -> (extension: Option<String>)
    ensures
        extension.deep_view() == extension_of(path),
{
    path.extension().and_then(|ext| ext.to_str()).map(|ext| ext.to_string())
}

/// `Path::file_name`, turned into a string, lossily where it is not valid
/// Unicode. The contract only names the result.
#[verifier::external_body]
pub(crate) fn file_name_text(path: &Path) -> (name: Option<String>)
    ensures
        name.deep_view() == file_name_of(path),
{
    path.file_name().map(|name| name.to_string_lossy().to_string())
}

} // verus!
