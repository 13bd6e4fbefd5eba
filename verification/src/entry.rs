//! One log entry: the message as given, closed by a single line feed.

use vstd::prelude::*;
use vstd::string::*;
use vstd::utf8::*;

verus! {

/// The byte that closes every entry.
pub const LINE_FEED: u8 = 0x0A;

/// The text of the entry for `message`: the message itself, nothing trimmed
/// or escaped, followed by one newline. A message that holds newlines of its
/// own therefore spans several lines of the log.
pub open spec fn entry_chars(message: Seq<char>) -> Seq<char> {
    message.push('\n')
}

/// The bytes of the entry for `message`: the UTF-8 encoding of its text.
pub open spec fn entry_bytes(message: Seq<char>) -> Seq<u8> {
    encode_utf8(entry_chars(message))
}

/// UTF-8 encodes a text part by part.
pub proof fn lemma_encode_utf8_concat(left: Seq<char>, right: Seq<char>)
    ensures
        encode_utf8(left + right) == encode_utf8(left) + encode_utf8(right),
    decreases left.len(),
{
    if left.len() == 0 {
        assert(left + right =~= right);
        assert(encode_utf8(left) + encode_utf8(right) =~= encode_utf8(right));
    } else {
        lemma_encode_utf8_concat(left.drop_first(), right);
        assert((left + right).drop_first() =~= left.drop_first() + right);
        assert((left + right)[0] == left[0]);
        assert(encode_utf8(left + right) =~= encode_utf8(left) + encode_utf8(right));
    }
}

/// A newline is encoded as the single byte `LINE_FEED`.
pub proof fn lemma_newline_is_line_feed()
    ensures
        encode_utf8(seq!['\n']) == seq![LINE_FEED],
{
    let text = seq!['\n'];
    assert(is_ascii_chars(text));
    is_ascii_chars_encode_utf8(text);
    assert(text[0] as u8 == LINE_FEED);
    assert(encode_utf8(text) =~= seq![LINE_FEED]);
}

/// The bytes of an entry are the bytes of the message, unchanged, and then
/// one line feed.
pub proof fn lemma_entry_bytes_verbatim(message: Seq<char>)
    ensures
        entry_bytes(message) == encode_utf8(message).push(LINE_FEED),
        entry_bytes(message).len() == encode_utf8(message).len() + 1,
{
    assert(entry_chars(message) =~= message + seq!['\n']);
    lemma_encode_utf8_concat(message, seq!['\n']);
    lemma_newline_is_line_feed();
    assert(encode_utf8(message) + seq![LINE_FEED] =~= encode_utf8(message).push(LINE_FEED));
}

/// Builds the text of the entry for `message`.
pub fn format_entry(message: &str) -> (line: String)
    ensures
        line@ == entry_chars(message@),
{
    let mut line = String::from_str(message);
    line.append("\n");
    proof {
        reveal_strlit("\n");
        assert("\n"@ =~= seq!['\n']);
        assert(message@ + seq!['\n'] =~= message@.push('\n'));
    }
    line
}

/// Builds the bytes that one call appends to the log for `message`: by
/// `lemma_entry_bytes_verbatim`, the bytes of the message and one line feed.
pub fn encode_entry(message: &str) -> (bytes: Vec<u8>)
    ensures
        bytes@ == entry_bytes(message@),
{
    let line = format_entry(message);
    line.as_str().as_bytes_vec()
}

} // verus!
