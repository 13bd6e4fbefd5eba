//! What one call asks of the host: which file to open for appending, and
//! which bytes to write to it.

use vstd::prelude::*;
use crate::entry::{encode_entry, entry_bytes};
use crate::location::{log_path, log_path_chars};

verus! {

/// The work of one call, ready for the host to carry out: open `path` for
/// appending, creating the file if it is absent, and write `bytes` to it.
#[derive(Debug, Clone, PartialEq, Eq)]
pub struct Append {
    /// The file to open.
    pub path: String,
    /// The bytes to add at its end.
    pub bytes: Vec<u8>,
}

/// Prepares the logging of `message` for a user whose home directory is
/// `home`, or `None` where it could not be resolved.
///
/// Any message is taken, whatever its length and content. With a home
/// directory the result names the log below it and holds the entry for the
/// message. Without one there is nowhere to log to and the result is `None`,
/// which the host must treat as fatal: a message is never dropped in silence.
#[must_use]
pub fn prepare(home: Option<&str>, message: &str) -> (result: Option<Append>)
    ensures
        match home {
            Some(dir) => {
                &&& result matches Some(append)
                &&& append.path@ == log_path_chars(dir@)
                &&& append.bytes@ == entry_bytes(message@)
            },
            None => result is None,
        },
{
    match home {
        Some(dir) => Some(Append { path: log_path(dir), bytes: encode_entry(message) }),
        None => None,
    }
}

} // verus!
