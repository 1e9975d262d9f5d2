//! The error type shared by every fallible operation of the library, with
//! one variant per failure class and an exact, user-facing message.

use vstd::prelude::*;

verus! {

/// The message that hints at a missing pair of double quotes around a
/// metadata argument: the original input is echoed verbatim.
pub open spec fn hint_message(s: Seq<char>) -> Seq<char> {
    "did you remember to double quote strings, like --metadata '\""@ + s + "\"'"@
}

/// The message for a path that names a directory instead of a file.
pub open spec fn dir_message(path: Seq<char>) -> Seq<char> {
    "--path argument takes a file, "@ + path + " is a directory"@
}

/// The message for a path that names a symbolic link or another
/// non-regular file.
pub open spec fn symlink_message(path: Seq<char>) -> Seq<char> {
    "--path argument takes a file, "@ + path + " is a symlink"@
}

/// Everything that can stop a put before a response is interpreted.
/// Each variant carries its complete user-facing message.
#[derive(Debug)]
pub enum PutError {
    /// The metadata string was not valid JSON but looked like a bare,
    /// unquoted string; the message is `hint_message` of the input.
    MetadataHint(String),
    /// The metadata string was not valid JSON for any other reason; the
    /// message is the JSON parser's own diagnostic, unmodified.
    MetadataRaw(String),
    /// The composed endpoint URL was rejected by the URL parser.
    InvalidUrl(String),
    /// A value path named a directory; the message is `dir_message`.
    PathIsDirectory(String),
    /// A value path named a symlink or other non-regular file; the
    /// message is `symlink_message`.
    PathIsSymlink(String),
    /// A value path could not be inspected; the message is the operating
    /// system's own diagnostic.
    PathInaccessible(String),
}

impl PutError {
    /// The complete user-facing message of this error.
    pub open spec fn message_spec(self) -> Seq<char> {
        match self {
            PutError::MetadataHint(m) => m@,
            PutError::MetadataRaw(m) => m@,
            PutError::InvalidUrl(m) => m@,
            PutError::PathIsDirectory(m) => m@,
            PutError::PathIsSymlink(m) => m@,
            PutError::PathInaccessible(m) => m@,
        }
    }

    /// Hands the user-facing message out as an owned string.
    pub fn message(&self) -> (r: String)
        ensures
            r@ == self.message_spec(),
    {
        match self {
            PutError::MetadataHint(m) => m.clone(),
            PutError::MetadataRaw(m) => m.clone(),
            PutError::InvalidUrl(m) => m.clone(),
            PutError::PathIsDirectory(m) => m.clone(),
            PutError::PathIsSymlink(m) => m.clone(),
            PutError::PathInaccessible(m) => m.clone(),
        }
    }
}

} // verus!
