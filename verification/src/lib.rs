//! Decoding of NEXRAD Level II ("Archive II") weather radar data.
//!
//! The crate turns the bytes of an archive into typed records: the archive
//! header, the framed records of the archive body, the header that precedes
//! every message, and the digital radar data message with its optional data
//! blocks. It reads from buffers in memory and performs no input or output.
//!
//! Every decoder comes with a `spec` function over `Seq<u8>` that says what it
//! returns for each input, and each decoder is proved to agree with it.
//! Numbers that the format stores as IEEE 754 single precision values are kept
//! as their bit patterns, see [`real4::Real4`].

pub mod bytes;
pub mod message;
pub mod messages;
pub mod model;
pub mod raw;
pub mod real4;
pub mod result;
pub mod selection;

pub use result::Error;
