//! The header at the start of an Archive II file.

use crate::bytes::{be_u32, in_bounds, ByteReader};
use vstd::prelude::*;

verus! {

/// The width of the archive header.
pub const ARCHIVE2_HEADER_SIZE: usize = 24;

/// The header of an Archive II file, produced once per file.
#[derive(Debug, Clone, Copy, PartialEq, Eq)]
pub struct Archive2Header {
    /// The tape's filename, of the form `AR2V00xx.`, where `xx` tells the
    /// version of the data.
    pub tape_filename: [u8; 9],
    /// Sequential number of the volume in the queue, as three digits.
    pub extension_number: [u8; 3],
    /// Creation date in days since 1 January 1970, which is day 1.
    pub date: u32,
    /// Creation time in milliseconds past midnight, Greenwich Mean Time.
    pub time: u32,
    /// The four letters that identify the radar site.
    pub icao_of_radar: [u8; 4],
}

/// The archive header whose first byte is at `at`: nine bytes of filename,
/// three of extension number, four of date, four of time and four of site
/// letters, in this order and with nothing between them.
pub open spec fn archive2_header_at(s: Seq<u8>, at: int) -> Archive2Header {
    Archive2Header {
        tape_filename: [
            s[at],
            s[at + 1],
            s[at + 2],
            s[at + 3],
            s[at + 4],
            s[at + 5],
            s[at + 6],
            s[at + 7],
            s[at + 8],
        ],
        extension_number: [s[at + 9], s[at + 10], s[at + 11]],
        date: be_u32(s, at + 12),
        time: be_u32(s, at + 16),
        icao_of_radar: [s[at + 20], s[at + 21], s[at + 22], s[at + 23]],
    }
}

impl Archive2Header {
    /// The header, read at `at` where all of it is known to be there.
    pub(crate) fn read_at(reader: &ByteReader, at: usize) -> (r: Archive2Header)
        requires
            in_bounds(reader.bytes(), at as int, ARCHIVE2_HEADER_SIZE as int),
        ensures
            r == archive2_header_at(reader.bytes(), at as int),
    {
        let _total: usize = reader.len();
        Archive2Header {
            tape_filename: [
                reader.u8_at(at),
                reader.u8_at(at + 1),
                reader.u8_at(at + 2),
                reader.u8_at(at + 3),
                reader.u8_at(at + 4),
                reader.u8_at(at + 5),
                reader.u8_at(at + 6),
                reader.u8_at(at + 7),
                reader.u8_at(at + 8),
            ],
            extension_number: [
                reader.u8_at(at + 9),
                reader.u8_at(at + 10),
                reader.u8_at(at + 11),
            ],
            date: reader.u32_at(at + 12),
            time: reader.u32_at(at + 16),
            icao_of_radar: [
                reader.u8_at(at + 20),
                reader.u8_at(at + 21),
                reader.u8_at(at + 22),
                reader.u8_at(at + 23),
            ],
        }
    }
}

/// The fields of the header are the bytes of the file at their places: each
/// text field holds the bytes of its range, one for one.
pub proof fn law_archive2_header_fields(s: Seq<u8>, at: int)
    requires
        in_bounds(s, at, ARCHIVE2_HEADER_SIZE as int),
    ensures
        archive2_header_at(s, at).tape_filename@ == s.subrange(at, at + 9),
        archive2_header_at(s, at).extension_number@ == s.subrange(at + 9, at + 12),
        archive2_header_at(s, at).date == be_u32(s, at + 12),
        archive2_header_at(s, at).time == be_u32(s, at + 16),
        archive2_header_at(s, at).icao_of_radar@ == s.subrange(at + 20, at + 24),
{
    let header = archive2_header_at(s, at);
    assert(header.tape_filename@ =~= s.subrange(at, at + 9));
    assert(header.extension_number@ =~= s.subrange(at + 9, at + 12));
    assert(header.icao_of_radar@ =~= s.subrange(at + 20, at + 24));
}

} // verus!
