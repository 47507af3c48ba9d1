//! The tag that opens every data block.

use crate::bytes::{in_bounds, ByteReader};
use vstd::prelude::*;

verus! {

/// The width of a data block's tag.
pub const DATA_BLOCK_ID_SIZE: usize = 4;

/// The tag of a data block: one letter for its type and three for its name.
#[derive(Debug, Clone, Copy, PartialEq, Eq)]
pub struct DataBlockId {
    /// Type of the block: `R` for the constant blocks, `D` for moments.
    pub data_block_type: u8,
    /// Name of the block, such as `VOL` or `REF`.
    pub data_name: [u8; 3],
}

/// The moments that a radial can carry.
#[derive(Debug, Clone, Copy, PartialEq, Eq, Structural)]
pub enum Moment {
    /// Named `REF`.
    Reflectivity,
    /// Named `VEL`.
    Velocity,
    /// Named `SW `, with a blank.
    SpectrumWidth,
    /// Named `ZDR`.
    DifferentialReflectivity,
    /// Named `PHI`.
    DifferentialPhase,
    /// Named `RHO`.
    CorrelationCoefficient,
    /// Named `CFP`.
    SpecificDiffPhase,
}

/// What a tag announces.
#[derive(Debug, Clone, Copy, PartialEq, Eq, Structural)]
pub enum BlockKind {
    /// Volume data, named `VOL`.
    Volume,
    /// Elevation data, named `ELV`.
    Elevation,
    /// Radial data, named `RAD`.
    Radial,
    /// The samples of one moment.
    Moment(Moment),
    /// A name that this crate does not know.
    Unknown,
}

/// The tag whose first byte is at `at`.
pub open spec fn data_block_id_at(s: Seq<u8>, at: int) -> DataBlockId {
    DataBlockId { data_block_type: s[at], data_name: [s[at + 1], s[at + 2], s[at + 3]] }
}

/// Whether `name` is made of the letters `a`, `b` and `c`, in ASCII.
pub open spec fn spells(name: [u8; 3], a: u8, b: u8, c: u8) -> bool {
    name[0] == a && name[1] == b && name[2] == c
}

/// What the block with the given name holds.
pub open spec fn kind_of_name(name: [u8; 3]) -> BlockKind {
    if spells(name, 0x56, 0x4f, 0x4c) {
        BlockKind::Volume
    } else if spells(name, 0x45, 0x4c, 0x56) {
        BlockKind::Elevation
    } else if spells(name, 0x52, 0x41, 0x44) {
        BlockKind::Radial
    } else if spells(name, 0x52, 0x45, 0x46) {
        BlockKind::Moment(Moment::Reflectivity)
    } else if spells(name, 0x56, 0x45, 0x4c) {
        BlockKind::Moment(Moment::Velocity)
    } else if spells(name, 0x53, 0x57, 0x20) {
        BlockKind::Moment(Moment::SpectrumWidth)
    } else if spells(name, 0x5a, 0x44, 0x52) {
        BlockKind::Moment(Moment::DifferentialReflectivity)
    } else if spells(name, 0x50, 0x48, 0x49) {
        BlockKind::Moment(Moment::DifferentialPhase)
    } else if spells(name, 0x52, 0x48, 0x4f) {
        BlockKind::Moment(Moment::CorrelationCoefficient)
    } else if spells(name, 0x43, 0x46, 0x50) {
        BlockKind::Moment(Moment::SpecificDiffPhase)
    } else {
        BlockKind::Unknown
    }
}

/// Decides [`spells`].
fn name_spells(name: &[u8; 3], a: u8, b: u8, c: u8) -> (r: bool)
    ensures
        r == spells(*name, a, b, c),
{
    name[0] == a && name[1] == b && name[2] == c
}

impl DataBlockId {
    /// What the tag announces, by its name alone.
    pub open spec fn spec_kind(self) -> BlockKind {
        kind_of_name(self.data_name)
    }

    /// The tag, read at `at` where all of it is known to be there.
    pub(crate) fn read_at(reader: &ByteReader, at: usize) -> (r: DataBlockId)
        requires
            in_bounds(reader.bytes(), at as int, DATA_BLOCK_ID_SIZE as int),
        ensures
            r == data_block_id_at(reader.bytes(), at as int),
    {
        let _total: usize = reader.len();
        DataBlockId {
            data_block_type: reader.u8_at(at),
            data_name: [reader.u8_at(at + 1), reader.u8_at(at + 2), reader.u8_at(at + 3)],
        }
    }

    /// Computes [`DataBlockId::spec_kind`].
    pub fn kind(&self) -> (r: BlockKind)
        ensures
            r == self.spec_kind(),
    {
        let name = &self.data_name;
        if name_spells(name, 0x56, 0x4f, 0x4c) {
            BlockKind::Volume
        } else if name_spells(name, 0x45, 0x4c, 0x56) {
            BlockKind::Elevation
        } else if name_spells(name, 0x52, 0x41, 0x44) {
            BlockKind::Radial
        } else if name_spells(name, 0x52, 0x45, 0x46) {
            BlockKind::Moment(Moment::Reflectivity)
        } else if name_spells(name, 0x56, 0x45, 0x4c) {
            BlockKind::Moment(Moment::Velocity)
        } else if name_spells(name, 0x53, 0x57, 0x20) {
            BlockKind::Moment(Moment::SpectrumWidth)
        } else if name_spells(name, 0x5a, 0x44, 0x52) {
            BlockKind::Moment(Moment::DifferentialReflectivity)
        } else if name_spells(name, 0x50, 0x48, 0x49) {
            BlockKind::Moment(Moment::DifferentialPhase)
        } else if name_spells(name, 0x52, 0x48, 0x4f) {
            BlockKind::Moment(Moment::CorrelationCoefficient)
        } else if name_spells(name, 0x43, 0x46, 0x50) {
            BlockKind::Moment(Moment::SpecificDiffPhase)
        } else {
            BlockKind::Unknown
        }
    }
}

} // verus!
