//! The source image file: what its path tells of its format.

use vstd::prelude::*;

verus! {

/// The extension that `std::path::Path::extension` finds in `path`, if it
/// finds one. It goes by the text of the path alone, under the rules for
/// paths of the platform that the library is built for.
pub uninterp spec fn extension_of(path: Seq<char>) -> Option<Seq<char>>;

/// `part` holds no dot and stands in `whole` right after a dot.
pub open spec fn follows_a_dot(whole: Seq<char>, part: Seq<char>) -> bool {
    &&& !part.contains('.')
    &&& exists|at: int|
        0 <= at && at + 1 + part.len() <= whole.len() && #[trigger] whole[at] == '.'
            && whole.subrange(at + 1, at + 1 + part.len()) == part
}

/// Calls `std::path::Path::extension` on `path`. Trusted: what comes back
/// is `extension_of(path)`; and an extension, being the part of the file
/// name after its last dot, holds no dot itself and stands in the path
/// right after one.
#[verifier::external_body]
pub(crate) fn path_extension(path: &str) -> (ext: Option<String>)
    ensures
        match ext {
            Some(e) => extension_of(path@) == Some(e@),
            None => extension_of(path@) is None,
        },
        ext matches Some(e) ==> follows_a_dot(path@, e@),
{
    std::path::Path::new(path).extension().map(|e| e.to_string_lossy().into_owned())
}

} // verus!
