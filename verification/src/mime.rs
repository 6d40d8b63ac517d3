//! The media type of a file, guessed from the extension of its name.

use vstd::prelude::*;

verus! {

/// The media type that the crate `mime_guess` holds first for the extension
/// of the file name in `path`, as the text that the type prints as, and
/// `text/plain` where the name has no extension or the crate knows none for
/// it. No file is opened: the answer depends on `path` alone.
pub uninterp spec fn mime_type_of(path: Seq<char>) -> Seq<char>;

/// Guesses the media type of the file at `path`.
///
/// Calls `mime_guess::from_path`, takes the guess by
/// `MimeGuess::first_or_text_plain` and prints it. Trusted: the result is the
/// text named `mime_type_of`. Nothing more is claimed of it.
#[verifier::external_body]
pub(crate) fn guess_mime_type(path: &str) -> (media_type: String)
    ensures
        media_type@ == mime_type_of(path@),
{
    mime_guess::from_path(path).first_or_text_plain().to_string()
}

} // verus!
