//! Lines on a serial port.

use vstd::prelude::*;

verus! {

/// The longest sentence that a receiver sends, in bytes.
pub const MAX_SENTENCE_LEN: usize = 82;

/// The byte that ends a line.
pub const LINE_FEED: u8 = 10;

/// Whether a buffer ends with the end of a line.
pub open spec fn spec_ends_line(buffer: Seq<u8>) -> bool {
    buffer.len() > 0 && buffer.last() == LINE_FEED
}

/// Whether a buffer ends with the end of a line, so that what has been read
/// into it can be handed on.
pub fn ends_line(buffer: &[u8]) -> (complete: bool)
    ensures
        complete == spec_ends_line(buffer@),
{
    buffer.len() > 0 && buffer[buffer.len() - 1] == LINE_FEED
}

} // verus!
