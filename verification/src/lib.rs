//! Driver core for a remote electro-mechanical typewriter.
//!
//! The device is driven over a duplex byte stream: every operation is
//! encoded as one 16-bit command word, written big-endian, and answered by
//! the device with a framed reply packet.  This crate holds the verified
//! core of the driver:
//!
//! - [`command`]: the typed command model and its bit-exact encoding to
//!   16-bit wire words;
//! - [`glyphs`]: the fixed table mapping printable characters to the
//!   device's glyph codes;
//! - [`transport`]: the reply-packet framing on the byte stream;
//! - [`typewriter`]: the session state machine tracking cursor position,
//!   print configuration and the power lifecycle.
//!
//! Opening the socket, reading and writing bytes, and preparing bitmaps
//! from images are left to the (unverified) program around this library.

pub mod command;
pub mod error;
pub mod glyphs;
pub mod transport;
pub mod typewriter;
