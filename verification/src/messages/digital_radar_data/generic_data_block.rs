//! The block that carries the samples of one moment.

use crate::bytes::{be_real4, be_u16, be_u32, in_bounds, ByteReader};
use crate::messages::digital_radar_data::data_block_id::{data_block_id_at, DataBlockId};
use crate::real4::Real4;
use crate::result::Error;
use vstd::prelude::*;

verus! {

/// The width of the fixed fields in front of the samples.
pub const GENERIC_HEADER_SIZE: usize = 28;

/// The fixed fields of a moment data block.
#[derive(Debug, Clone, Copy, PartialEq, Eq)]
pub struct GenericDataBlockHeader {
    /// The tag of the block.
    pub data_block_id: DataBlockId,
    /// Not used.
    pub reserved: u32,
    /// Number of gates, and so of samples.
    pub number_of_data_moment_gates: u16,
    /// Range to the center of the first gate, in meters.
    pub data_moment_range: u16,
    /// Distance between adjacent gates, in meters.
    pub data_moment_range_sample_interval: u16,
    /// Threshold above which range folded data is overlaid.
    pub tover: u16,
    /// Signal to noise ratio threshold for valid data.
    pub snr_threshold: u16,
    /// Flags that tell how the samples were recombined.
    pub control_flags: u8,
    /// Width of one sample in bits: 8 or 16.
    pub data_word_size: u8,
    /// Scale of the fixed-point encoding.
    pub scale: Real4,
    /// Offset of the fixed-point encoding.
    pub offset: Real4,
}

/// A moment data block: its fixed fields and one raw sample per gate, nearest
/// to the radar first.
#[derive(Debug, Clone, PartialEq, Eq)]
pub struct GenericDataBlock {
    /// The fixed fields.
    pub header: GenericDataBlockHeader,
    /// The raw samples, one per gate.
    pub samples: Vec<u16>,
}

/// A moment data block as a mathematical value.
pub struct GenericDataBlockView {
    /// The fixed fields.
    pub header: GenericDataBlockHeader,
    /// The raw samples, one per gate.
    pub samples: Seq<u16>,
}

impl View for GenericDataBlock {
    type V = GenericDataBlockView;

    open spec fn view(&self) -> GenericDataBlockView {
        GenericDataBlockView { header: self.header, samples: self.samples@ }
    }
}

impl GenericDataBlockHeader {
    /// Whether the declared sample width is one that the format allows.
    pub open spec fn word_size_supported(self) -> bool {
        self.data_word_size == 8 || self.data_word_size == 16
    }

    /// The number of bytes that the samples take.
    pub open spec fn data_len(self) -> int {
        self.number_of_data_moment_gates * (self.data_word_size / 8)
    }
}

impl GenericDataBlockView {
    /// A block is well formed when it has one sample per declared gate, of a
    /// width that the format allows.
    pub open spec fn well_formed(self) -> bool {
        self.header.word_size_supported() && self.samples.len()
            == self.header.number_of_data_moment_gates
    }
}

/// The fixed fields of the moment data block whose tag starts at `at`.
pub open spec fn generic_header_at(s: Seq<u8>, at: int) -> GenericDataBlockHeader {
    GenericDataBlockHeader {
        data_block_id: data_block_id_at(s, at),
        reserved: be_u32(s, at + 4),
        number_of_data_moment_gates: be_u16(s, at + 8),
        data_moment_range: be_u16(s, at + 10),
        data_moment_range_sample_interval: be_u16(s, at + 12),
        tover: be_u16(s, at + 14),
        snr_threshold: be_u16(s, at + 16),
        control_flags: s[at + 18],
        data_word_size: s[at + 19],
        scale: be_real4(s, at + 20),
        offset: be_real4(s, at + 24),
    }
}

/// The sample of gate `gate`, where the samples start at `data` and are
/// `word_size` bits wide.
pub open spec fn sample_at(s: Seq<u8>, data: int, word_size: u8, gate: int) -> u16 {
    if word_size == 16 {
        be_u16(s, data + 2 * gate)
    } else {
        s[data + gate] as u16
    }
}

/// The samples of `gates` gates, where the samples start at `data` and are
/// `word_size` bits wide.
pub open spec fn samples_at(s: Seq<u8>, data: int, word_size: u8, gates: nat) -> Seq<u16> {
    Seq::new(gates, |gate: int| sample_at(s, data, word_size, gate))
}

/// What decoding a moment data block at `at` gives, where `room` bytes from
/// `at` on belong to the message.
///
/// The fixed fields must lie within the room, the sample width must be 8 or
/// 16 bits, and the samples that the block declares must lie within the room
/// too. The block then has exactly one sample per gate.
pub open spec fn generic_block_result(s: Seq<u8>, at: int, room: int) -> Result<
    GenericDataBlockView,
    Error,
> {
    let header = generic_header_at(s, at);
    if room < GENERIC_HEADER_SIZE {
        Err(Error::CorruptMessage)
    } else if !header.word_size_supported() {
        Err(Error::UnsupportedDataWordSize)
    } else if GENERIC_HEADER_SIZE + header.data_len() > room {
        Err(Error::CorruptMessage)
    } else {
        Ok(
            GenericDataBlockView {
                header,
                samples: samples_at(
                    s,
                    at + GENERIC_HEADER_SIZE,
                    header.data_word_size,
                    header.number_of_data_moment_gates as nat,
                ),
            },
        )
    }
}

impl GenericDataBlockHeader {
    /// The fixed fields, read at `at` where all of them are known to be there.
    pub(crate) fn read_at(reader: &ByteReader, at: usize) -> (r: GenericDataBlockHeader)
        requires
            in_bounds(reader.bytes(), at as int, GENERIC_HEADER_SIZE as int),
        ensures
            r == generic_header_at(reader.bytes(), at as int),
    {
        let _total: usize = reader.len();
        GenericDataBlockHeader {
            data_block_id: DataBlockId::read_at(reader, at),
            reserved: reader.u32_at(at + 4),
            number_of_data_moment_gates: reader.u16_at(at + 8),
            data_moment_range: reader.u16_at(at + 10),
            data_moment_range_sample_interval: reader.u16_at(at + 12),
            tover: reader.u16_at(at + 14),
            snr_threshold: reader.u16_at(at + 16),
            control_flags: reader.u8_at(at + 18),
            data_word_size: reader.u8_at(at + 19),
            scale: reader.real4_at(at + 20),
            offset: reader.real4_at(at + 24),
        }
    }
}

impl GenericDataBlock {
    /// The block at `at`, of which `room` bytes are known to be there.
    pub(crate) fn read_at(reader: &ByteReader, at: usize, room: usize) -> (r: Result<
        GenericDataBlock,
        Error,
    >)
        requires
            in_bounds(reader.bytes(), at as int, room as int),
        ensures
            match r {
                Ok(block) => generic_block_result(reader.bytes(), at as int, room as int) == Ok::<
                    GenericDataBlockView,
                    Error,
                >(block@),
                Err(e) => generic_block_result(reader.bytes(), at as int, room as int) == Err::<
                    GenericDataBlockView,
                    Error,
                >(e),
            },
    {
        let _total: usize = reader.len();
        if room < GENERIC_HEADER_SIZE {
            return Err(Error::CorruptMessage);
        }
        let header = GenericDataBlockHeader::read_at(reader, at);
        let word_size: u8 = header.data_word_size;
        if word_size != 8 && word_size != 16 {
            return Err(Error::UnsupportedDataWordSize);
        }
        let gates: usize = header.number_of_data_moment_gates as usize;
        let data_len: usize = if word_size == 16 {
            gates * 2
        } else {
            gates
        };
        if data_len > room - GENERIC_HEADER_SIZE {
            return Err(Error::CorruptMessage);
        }
        let data: usize = at + GENERIC_HEADER_SIZE;
        let mut samples: Vec<u16> = Vec::new();
        let mut gate: usize = 0;
        while gate < gates
            invariant
                gate <= gates,
                word_size == 8 || word_size == 16,
                in_bounds(reader.bytes(), data as int, data_len as int),
                data_len == (if word_size == 16 { gates * 2 } else { gates as int }),
                reader.bytes().len() <= usize::MAX,
                samples@ == samples_at(reader.bytes(), data as int, word_size, gate as nat),
            decreases gates - gate,
        {
            let sample: u16 = if word_size == 16 {
                reader.u16_at(data + 2 * gate)
            } else {
                reader.u8_at(data + gate) as u16
            };
            samples.push(sample);
            gate = gate + 1;
        }
        Ok(GenericDataBlock { header, samples })
    }
}

/// A block that decodes has one sample for each gate that it declares, of a
/// width of 8 or 16 bits. A block that declares no gate decodes to no sample.
pub proof fn law_decoded_block_is_well_formed(s: Seq<u8>, at: int, room: int)
    ensures
        generic_block_result(s, at, room) matches Ok(block) ==> block.well_formed() && (
        block.header.number_of_data_moment_gates == 0 ==> block.samples.len() == 0),
        room >= GENERIC_HEADER_SIZE && generic_header_at(s, at).word_size_supported()
            && generic_header_at(s, at).number_of_data_moment_gates == 0 ==> generic_block_result(
            s,
            at,
            room,
        ) is Ok,
{
}

} // verus!
