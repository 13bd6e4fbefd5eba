//! Where the log lives: a fixed file in a dot-directory of the user's home.

use vstd::prelude::*;
use vstd::string::*;

verus! {

/// The log's place below the home directory. The directory in it is taken
/// to exist already: nothing in this crate asks for it to be made.
pub open spec fn log_suffix() -> Seq<char> {
    "/.tauri/vitale.log"@
}

/// The path of the log for the home directory `home`: the home directory as
/// given, then the fixed suffix. Nothing is normalised, so a home directory
/// that ends in a separator yields a path with two of them.
pub open spec fn log_path_chars(home: Seq<char>) -> Seq<char> {
    home + log_suffix()
}

/// Builds the path of the log for the home directory `home`.
pub fn log_path(home: &str) -> (path: String)
    ensures
        path@ == log_path_chars(home@),
{
    let mut path = String::from_str(home);
    path.append("/.tauri/vitale.log");
    path
}

} // verus!
