//! The fixed header of the digital radar data message.

use crate::bytes::{be_real4, be_u16, be_u32, in_bounds, ByteReader};
use crate::real4::Real4;
use crate::result::Error;
use vstd::prelude::*;

verus! {

/// The width of the fixed header.
pub const HEADER_SIZE: usize = 32;

/// The largest number of data blocks that a message can declare.
pub const MAX_DATA_BLOCKS: u16 = 10;

/// The fixed header of a digital radar data message.
#[derive(Debug, Clone, Copy, PartialEq, Eq)]
pub struct Header {
    /// The four letters that identify the radar.
    pub radar_identifier: [u8; 4],
    /// Collection time in milliseconds past midnight, Greenwich Mean Time.
    pub time: u32,
    /// Collection date in days since 1 January 1970, which is day 1.
    pub date: u16,
    /// Number of the radial within its elevation scan, from 1 to 720.
    pub azimuth_number: u16,
    /// Azimuth angle at which the radial was collected, in degrees.
    pub azimuth_angle: Real4,
    /// Whether and how the message is compressed.
    pub compression_indicator: u8,
    /// Not used.
    pub spare: u8,
    /// Length of the message body in bytes, this header included.
    pub radial_length: u16,
    /// Code of the azimuthal spacing between adjacent radials.
    pub azimuth_resolution_spacing: u8,
    /// Code of the radial's place within the scan.
    pub radial_status: u8,
    /// Number of the elevation within the volume scan.
    pub elevation_number: u8,
    /// Number of the sector within the cut.
    pub cut_sector_number: u8,
    /// Elevation angle at which the radial was collected, in degrees.
    pub elevation_angle: Real4,
    /// Spot blanking flags of the radial, the elevation and the volume.
    pub radial_spot_blanking_status: u8,
    /// Azimuth indexing value.
    pub azimuth_indexing_mode: u8,
    /// Number of entries in the offset table.
    pub data_block_count: u16,
}

/// The header whose first byte is at `at`.
pub open spec fn header_at(s: Seq<u8>, at: int) -> Header {
    Header {
        radar_identifier: [s[at], s[at + 1], s[at + 2], s[at + 3]],
        time: be_u32(s, at + 4),
        date: be_u16(s, at + 8),
        azimuth_number: be_u16(s, at + 10),
        azimuth_angle: be_real4(s, at + 12),
        compression_indicator: s[at + 16],
        spare: s[at + 17],
        radial_length: be_u16(s, at + 18),
        azimuth_resolution_spacing: s[at + 20],
        radial_status: s[at + 21],
        elevation_number: s[at + 22],
        cut_sector_number: s[at + 23],
        elevation_angle: be_real4(s, at + 24),
        radial_spot_blanking_status: s[at + 28],
        azimuth_indexing_mode: s[at + 29],
        data_block_count: be_u16(s, at + 30),
    }
}

/// What decoding a header at `at` gives: the header, if all of it is there.
pub open spec fn header_result(s: Seq<u8>, at: int) -> Result<Header, Error> {
    if in_bounds(s, at, HEADER_SIZE as int) {
        Ok(header_at(s, at))
    } else {
        Err(Error::UnexpectedEof)
    }
}

impl Header {
    /// The offset of the first byte behind the offset table, counted from the
    /// start of the message body. The table follows the header and has four
    /// bytes for each entry.
    pub open spec fn table_end(self) -> int {
        HEADER_SIZE + 4 * self.data_block_count
    }

    /// The header, read at `at` where all of it is known to be there.
    pub(crate) fn read_at(reader: &ByteReader, at: usize) -> (r: Header)
        requires
            in_bounds(reader.bytes(), at as int, HEADER_SIZE as int),
        ensures
            r == header_at(reader.bytes(), at as int),
    {
        let _total: usize = reader.len();
        Header {
            radar_identifier: [
                reader.u8_at(at),
                reader.u8_at(at + 1),
                reader.u8_at(at + 2),
                reader.u8_at(at + 3),
            ],
            time: reader.u32_at(at + 4),
            date: reader.u16_at(at + 8),
            azimuth_number: reader.u16_at(at + 10),
            azimuth_angle: reader.real4_at(at + 12),
            compression_indicator: reader.u8_at(at + 16),
            spare: reader.u8_at(at + 17),
            radial_length: reader.u16_at(at + 18),
            azimuth_resolution_spacing: reader.u8_at(at + 20),
            radial_status: reader.u8_at(at + 21),
            elevation_number: reader.u8_at(at + 22),
            cut_sector_number: reader.u8_at(at + 23),
            elevation_angle: reader.real4_at(at + 24),
            radial_spot_blanking_status: reader.u8_at(at + 28),
            azimuth_indexing_mode: reader.u8_at(at + 29),
            data_block_count: reader.u16_at(at + 30),
        }
    }
}

/// Decodes the fixed header at the reader's position.
///
/// The reader moves over the 32 bytes of the header and stops in front of the
/// offset table. Where fewer bytes are left the reader stays in place.
pub fn decode_header(reader: &mut ByteReader) -> (r: Result<Header, Error>)
    ensures
        r == header_result(old(reader).bytes(), old(reader).pos()),
        final(reader).bytes() == old(reader).bytes(),
        final(reader).pos() == old(reader).pos() + (if r is Ok { HEADER_SIZE as int } else { 0int }),
{
    if reader.remaining() < HEADER_SIZE {
        return Err(Error::UnexpectedEof);
    }
    let header = Header::read_at(reader, reader.position());
    reader.advance(HEADER_SIZE);
    Ok(header)
}

} // verus!
