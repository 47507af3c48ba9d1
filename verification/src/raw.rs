//! The container of an archive: the header at its start and the records
//! behind it.

pub mod archive2_header;
pub mod records;

pub use archive2_header::Archive2Header;
pub use records::{Decompressor, Record, RecordFramer, Uncompressed};

use crate::bytes::{in_bounds, lemma_same_rest_agrees, same_rest, ByteReader};
use crate::raw::records::{frame_at, CONTROL_WORD_SIZE};
use crate::raw::archive2_header::{archive2_header_at, ARCHIVE2_HEADER_SIZE};
use crate::result::Error;
use vstd::prelude::*;

verus! {

/// What decoding an archive header at `at` gives: the header, if all of it is
/// there.
pub open spec fn archive2_header_result(s: Seq<u8>, at: int) -> Result<Archive2Header, Error> {
    if in_bounds(s, at, ARCHIVE2_HEADER_SIZE as int) {
        Ok(archive2_header_at(s, at))
    } else {
        Err(Error::UnexpectedEof)
    }
}

/// Decodes an Archive II header from the provided reader.
///
/// The reader moves over the 24 bytes of the header and stops in front of the
/// first record. Where fewer bytes are left the reader stays in place.
pub fn decode_archive2_header(reader: &mut ByteReader) -> (r: Result<Archive2Header, Error>)
    ensures
        r == archive2_header_result(old(reader).bytes(), old(reader).pos()),
        final(reader).bytes() == old(reader).bytes(),
        final(reader).pos() == old(reader).pos() + (if r is Ok {
            ARCHIVE2_HEADER_SIZE as int
        } else {
            0int
        }),
{
    if reader.remaining() < ARCHIVE2_HEADER_SIZE {
        return Err(Error::UnexpectedEof);
    }
    let header = Archive2Header::read_at(reader, reader.position());
    reader.advance(ARCHIVE2_HEADER_SIZE);
    Ok(header)
}

/// The archive header and the framing of records are functions of the bytes
/// from the reader's position on: two buffers that hold the same bytes behind
/// their positions give the same header and the same next record.
pub proof fn law_archive_reads_the_rest_only(s1: Seq<u8>, at1: int, s2: Seq<u8>, at2: int)
    requires
        same_rest(s1, at1, s2, at2),
    ensures
        archive2_header_result(s1, at1) == archive2_header_result(s2, at2),
        frame_at(s1, at1) == frame_at(s2, at2),
{
    lemma_same_rest_agrees(s1, at1, s2, at2);
    if let Ok(Some(payload)) = frame_at(s1, at1) {
        let from1 = at1 + CONTROL_WORD_SIZE;
        let from2 = at2 + CONTROL_WORD_SIZE;
        assert(payload =~= s2.subrange(from2, from2 + payload.len()));
    }
}

} // verus!
