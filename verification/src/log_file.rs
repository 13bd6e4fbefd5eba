//! The log file as the calls see it: absent until the first call creates it,
//! and from then on a string of bytes that only ever grows at its end.

use vstd::prelude::*;
use crate::entry::{encode_entry, entry_bytes, lemma_entry_bytes_verbatim};

verus! {

/// The bytes that a file holds: none while it is absent.
pub open spec fn contents_of(file: Option<Seq<u8>>) -> Seq<u8> {
    match file {
        Some(bytes) => bytes,
        None => Seq::empty(),
    }
}

/// The file after one call with `message`: it exists, and holds what it held
/// before followed by the entry for the message.
pub open spec fn after_log(file: Option<Seq<u8>>, message: Seq<char>) -> Option<Seq<u8>> {
    Some(contents_of(file) + entry_bytes(message))
}

/// The file after one call for each of `messages`, in their order.
pub open spec fn after_logs(file: Option<Seq<u8>>, messages: Seq<Seq<char>>) -> Option<Seq<u8>>
    decreases messages.len(),
{
    if messages.len() == 0 {
        file
    } else {
        after_log(after_logs(file, messages.drop_last()), messages.last())
    }
}

/// The entries for `messages`, one after the other.
pub open spec fn entries_bytes(messages: Seq<Seq<char>>) -> Seq<u8>
    decreases messages.len(),
{
    if messages.len() == 0 {
        Seq::empty()
    } else {
        entries_bytes(messages.drop_last()) + entry_bytes(messages.last())
    }
}

/// A call creates the file where it is absent and never shortens it where
/// it exists: what the file held stays at its start, byte for byte, and the
/// file grows by the length of the entry, which is at least one byte.
pub proof fn lemma_log_creates_or_extends(file: Option<Seq<u8>>, message: Seq<char>)
    ensures
        after_log(file, message) is Some,
        contents_of(file).is_prefix_of(contents_of(after_log(file, message))),
        contents_of(after_log(file, message)).len() == contents_of(file).len() + entry_bytes(
            message,
        ).len(),
        contents_of(after_log(file, message)).len() > contents_of(file).len(),
{
    lemma_entry_bytes_verbatim(message);
    let before = contents_of(file);
    let after = contents_of(after_log(file, message));
    assert(after.subrange(0, before.len() as int) =~= before);
}

/// After any run of calls the file holds what it held before, unaltered,
/// followed by the entry of each message in the order of the calls, and
/// nothing else.
pub proof fn lemma_logs_concatenate(file: Option<Seq<u8>>, messages: Seq<Seq<char>>)
    ensures
        contents_of(after_logs(file, messages)) == contents_of(file) + entries_bytes(messages),
        contents_of(file).is_prefix_of(contents_of(after_logs(file, messages))),
        messages.len() > 0 ==> after_logs(file, messages) is Some,
        messages.len() == 0 ==> after_logs(file, messages) == file,
    decreases messages.len(),
{
    let before = contents_of(file);
    if messages.len() == 0 {
        assert(before + entries_bytes(messages) =~= before);
    } else {
        lemma_logs_concatenate(file, messages.drop_last());
        let earlier = entries_bytes(messages.drop_last());
        let latest = entry_bytes(messages.last());
        assert((before + earlier) + latest =~= before + (earlier + latest));
    }
    let after = contents_of(after_logs(file, messages));
    assert(after.subrange(0, before.len() as int) =~= before);
}

/// A log file held in memory, for hosts and tests that keep the log off the
/// disk. It behaves as a file opened for appending does.
#[derive(Debug, Clone, PartialEq, Eq)]
pub struct LogFile {
    contents: Option<Vec<u8>>,
}

impl View for LogFile {
    type V = Option<Seq<u8>>;

    closed spec fn view(&self) -> Option<Seq<u8>> {
        match self.contents {
            Some(bytes) => Some(bytes@),
            None => None,
        }
    }
}

impl LogFile {
    /// A file that does not exist yet.
    pub fn absent() -> (file: LogFile)
        ensures
            file@ is None,
    {
        LogFile { contents: None }
    }

    /// A file that exists and holds `bytes`.
    pub fn holding(bytes: Vec<u8>) -> (file: LogFile)
        ensures
            file@ == Some(bytes@),
    {
        LogFile { contents: Some(bytes) }
    }

    /// Whether the file exists.
    pub fn is_present(&self) -> (found: bool)
        ensures
            found == (self@ is Some),
    {
        self.contents.is_some()
    }

    /// The bytes that the file holds: none while it is absent.
    pub fn contents(&self) -> (bytes: &[u8])
        ensures
            bytes@ == contents_of(self@),
    {
        match &self.contents {
            Some(bytes) => bytes.as_slice(),
            None => &[],
        }
    }

    /// Appends the entry for `message`, creating the file if it is absent.
    pub fn log(&mut self, message: &str)
        ensures
            final(self)@ == after_log(old(self)@, message@),
    {
        let mut entry = encode_entry(message);
        let mut bytes = match self.contents.take() {
            Some(held) => held,
            None => Vec::new(),
        };
        bytes.append(&mut entry);
        self.contents = Some(bytes);
    }
}

} // verus!
