use vstd::prelude::*;

use crate::handler::{Action, ActionView};
use crate::peer::{Message, PeerAddr};

verus! {

/// The byte that ends a line on the wire.
pub const LINE_FEED: u8 = 10;

/// The byte that may stand before the line feed of a terminator.
pub const CARRIAGE_RETURN: u8 = 13;

/// A read with its one line terminator, `"\n"` or `"\r\n"`, taken off the end.
pub open spec fn strip_terminator(chunk: Seq<u8>) -> Seq<u8> {
    let n = chunk.len();
    if n >= 2 && chunk[n - 2] == CARRIAGE_RETURN && chunk[n - 1] == LINE_FEED {
        chunk.subrange(0, n - 2)
    } else if n >= 1 && chunk[n - 1] == LINE_FEED {
        chunk.subrange(0, n - 1)
    } else {
        chunk
    }
}

/// The bytes that carry a message's content on the wire: the content and a line feed.
pub open spec fn frame(content: Seq<u8>) -> Seq<u8> {
    content.push(LINE_FEED)
}

/// Whether the bytes are well-formed UTF-8.
pub uninterp spec fn is_utf8(bytes: Seq<u8>) -> bool;

/// Relies on std::str::from_utf8, which succeeds exactly on well-formed UTF-8;
/// the answer depends on the bytes alone.
#[verifier::external_body]
pub(crate) fn utf8_valid(bytes: &[u8]) -> (r: bool)
    ensures
        r == is_utf8(bytes@),
{
    std::str::from_utf8(bytes).is_ok()
}

/// What one read from a peer's socket leads to, given whether the read,
/// without its terminator, is text. An empty read is the peer closing;
/// a bare terminator is skipped; a read that is not text closes the
/// connection; anything else is published under the peer's address.
/// Lines are not reassembled across reads: a read that holds part of a line,
/// or several lines, is published as it came, as one message.
pub open spec fn read_outcome(peer: PeerAddr, chunk: Seq<u8>, text: bool) -> ActionView {
    if chunk.len() == 0 {
        ActionView::Close
    } else if strip_terminator(chunk).len() == 0 {
        ActionView::Nothing
    } else if !text {
        ActionView::Close
    } else {
        ActionView::Publish { origin: peer, content: strip_terminator(chunk) }
    }
}

/// Takes the line terminator, if any, off the end of one read.
pub fn strip_line_terminator(chunk: &[u8]) -> (r: Vec<u8>)
    ensures
        r@ == strip_terminator(chunk@),
{
    let n = chunk.len();
    let end: usize = if n >= 2 && chunk[n - 2] == CARRIAGE_RETURN && chunk[n - 1] == LINE_FEED {
        n - 2
    } else if n >= 1 && chunk[n - 1] == LINE_FEED {
        n - 1
    } else {
        n
    };
    let mut out: Vec<u8> = Vec::new();
    let mut i: usize = 0;
    while i < end
        invariant
            end <= chunk@.len(),
            i <= end,
            out@ == chunk@.subrange(0, i as int),
        decreases end - i,
    {
        out.push(chunk[i]);
        i += 1;
        assert(out@ =~= chunk@.subrange(0, i as int));
    }
    assert(chunk@.subrange(0, n as int) =~= chunk@);
    out
}

/// The bytes to write for a message's content: the content and a line feed.
pub fn frame_message(content: &[u8]) -> (r: Vec<u8>)
    ensures
        r@ == frame(content@),
{
    let mut out: Vec<u8> = Vec::new();
    let mut i: usize = 0;
    while i < content.len()
        invariant
            i <= content@.len(),
            out@ == content@.subrange(0, i as int),
        decreases content@.len() - i,
    {
        out.push(content[i]);
        i += 1;
        assert(out@ =~= content@.subrange(0, i as int));
    }
    assert(content@.subrange(0, content@.len() as int) =~= content@);
    out.push(LINE_FEED);
    out
}

/// Decides what one read from `peer` leads to, where `text` tells whether
/// the read without its terminator is well-formed UTF-8.
pub fn read_action(peer: PeerAddr, chunk: &[u8], text: bool) -> (r: Action)
    ensures
        r@ == read_outcome(peer, chunk@, text),
{
    if chunk.len() == 0 {
        return Action::Close;
    }
    let content = strip_line_terminator(chunk);
    if content.len() == 0 {
        Action::Nothing
    } else if !text {
        Action::Close
    } else {
        Action::Publish(Message::new(peer, content))
    }
}

} // verus!
