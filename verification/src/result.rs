//! The error type shared by all decoders.

use vstd::prelude::*;

verus! {

/// Why a decode operation failed.
#[derive(Debug, Clone, Copy, PartialEq, Eq, Structural)]
pub enum Error {
    /// The byte source itself failed. The decoders of this crate read from
    /// memory and never produce this value; it exists for adapters that pull
    /// bytes from a fallible source before handing them over.
    IoError,
    /// Fewer bytes are available than a fixed field requires.
    UnexpectedEof,
    /// A record is framed wrongly or its payload does not decompress.
    CorruptRecord,
    /// A moment data block declares a sample width other than 8 or 16 bits.
    UnsupportedDataWordSize,
    /// A moment data block has a scale of zero.
    InvalidScale,
    /// A message contradicts itself: an offset outside the declared size, a
    /// block of unknown kind and undeterminable size, or lengths that do not
    /// agree.
    CorruptMessage,
}

} // verus!
