//! Error taxonomy of the driver.

use vstd::prelude::*;

verus! {

/// Everything that can go wrong while driving the device.
///
/// - `InvalidArgument`: a value is out of the range the wire format can
///   carry (a move distance that does not fit in 12 bits, or a cursor
///   update that leaves the signed 16-bit step range).  Rejected before
///   any I/O.
/// - `InvalidState`: an operation that requires the session to be online
///   was issued while it was offline.
/// - `ConnectionError`: opening, writing or reading the byte channel
///   failed.  Only the I/O layer around this library produces it.
/// - `ProtocolViolation`: the channel was exhausted before a reply-flagged
///   packet arrived for a pending command.
#[derive(Clone, Copy, Debug, PartialEq, Eq, Structural)]
pub enum TypewriterError {
    InvalidArgument,
    InvalidState,
    ConnectionError,
    ProtocolViolation,
}

} // verus!
