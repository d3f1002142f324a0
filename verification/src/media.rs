//! The media type of a file, guessed from its path.

use vstd::prelude::*;

verus! {

/// The media type that `mime_guess` gives for a path.
///
/// It looks at the extension of the path only, without regard to case, in a
/// table that is fixed for a given version of that crate, and gives
/// `application/octet-stream` where the path has no extension or the table
/// does not know it. No file is touched.
pub uninterp spec fn guessed_media_type(path: Seq<char>) -> Seq<char>;

/// Calls `mime_guess::from_path(path).first_or_octet_stream()` and writes
/// the media type out as text. The contract only gives the result its name:
/// it is a function of the path.
#[verifier::external_body]
pub(crate) fn guess_media_type(path: &str) -> (media_type: String)
    ensures
        media_type@ == guessed_media_type(path@),
{
    mime_guess::from_path(path).first_or_octet_stream().to_string()
}

} // verus!
