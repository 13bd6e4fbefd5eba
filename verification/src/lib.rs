//! The rules of a per-user, append-only text log: where the log lives, which
//! bytes one call adds to it, and what the file holds after any run of calls.
//!
//! Nothing here reads the process's variables or touches the file system. A
//! host resolves the home directory, opens the file and writes; this crate
//! says which path to open and which bytes to write, and proves what follows
//! for the file.

pub mod entry;
pub mod location;
pub mod log_file;
pub mod request;
