//! The digital radar data message: the fixed header, the offset table behind
//! it, and the data blocks that the table points to.

pub mod constant_blocks;
pub mod data_block_id;
pub mod generic_data_block;
pub mod header;
pub mod laws;
pub mod message;

pub use constant_blocks::{ElevationDataBlock, RadialDataBlock, VolumeDataBlock};
pub use data_block_id::{BlockKind, DataBlockId, Moment};
pub use generic_data_block::{GenericDataBlock, GenericDataBlockHeader, GenericDataBlockView};
pub use header::Header;
pub use message::{DataBlock, DataBlockView, Message, MessageView};

use crate::bytes::{be_u16, be_u32, in_bounds, ByteReader};
use crate::messages::digital_radar_data::constant_blocks::{
    elevation_block_at, radial_block_at, volume_block_at, ELEVATION_BLOCK_SIZE, RADIAL_BLOCK_SIZE,
    VOLUME_BLOCK_SIZE,
};
use crate::messages::digital_radar_data::data_block_id::{data_block_id_at, DATA_BLOCK_ID_SIZE};
use crate::messages::digital_radar_data::generic_data_block::generic_block_result;
use crate::messages::digital_radar_data::header::{header_at, HEADER_SIZE, MAX_DATA_BLOCKS};
use crate::result::Error;
use vstd::prelude::*;

verus! {

/// The width of the tag and the size field that every block of an unknown
/// kind must have, to be stepped over.
pub const SIZED_TAG_SIZE: usize = 6;

/// Entry `index` of the offset table of the message that starts at `start`.
pub open spec fn offset_entry(s: Seq<u8>, start: int, index: int) -> u32 {
    be_u32(s, start + HEADER_SIZE + 4 * index)
}

/// What decoding a block of an unknown kind at `at` gives, where `room` bytes
/// from `at` on belong to the message.
///
/// Such a block is stepped over by the size that it declares in the two bytes
/// behind its tag. The size must cover the tag and itself and lie within the
/// room; where it does not, nobody can tell where the block ends.
pub open spec fn unknown_block_result(s: Seq<u8>, at: int, room: int) -> Result<
    DataBlockView,
    Error,
> {
    if room < SIZED_TAG_SIZE {
        Err(Error::CorruptMessage)
    } else if be_u16(s, at + DATA_BLOCK_ID_SIZE) < SIZED_TAG_SIZE || be_u16(
        s,
        at + DATA_BLOCK_ID_SIZE,
    ) > room {
        Err(Error::CorruptMessage)
    } else {
        Ok(DataBlockView::Skipped)
    }
}

/// What decoding the block at `offset` gives, in the message that starts at
/// `start`, declares a size of `declared` bytes and has its offset table end
/// at `floor`.
///
/// The block must begin behind the offset table and end within the declared
/// size. Its tag decides what is decoded.
pub open spec fn block_at(s: Seq<u8>, start: int, declared: int, floor: int, offset: int) -> Result<
    DataBlockView,
    Error,
> {
    let at = start + offset;
    let room = declared - offset;
    if offset < floor || room < DATA_BLOCK_ID_SIZE {
        Err(Error::CorruptMessage)
    } else {
        match data_block_id_at(s, at).spec_kind() {
            BlockKind::Volume => if room < VOLUME_BLOCK_SIZE {
                Err(Error::CorruptMessage)
            } else {
                Ok(DataBlockView::Volume(volume_block_at(s, at)))
            },
            BlockKind::Elevation => if room < ELEVATION_BLOCK_SIZE {
                Err(Error::CorruptMessage)
            } else {
                Ok(DataBlockView::Elevation(elevation_block_at(s, at)))
            },
            BlockKind::Radial => if room < RADIAL_BLOCK_SIZE {
                Err(Error::CorruptMessage)
            } else {
                Ok(DataBlockView::Radial(radial_block_at(s, at)))
            },
            BlockKind::Moment(moment) => match generic_block_result(s, at, room) {
                Ok(block) => Ok(DataBlockView::Moment(moment, block)),
                Err(e) => Err(e),
            },
            BlockKind::Unknown => unknown_block_result(s, at, room),
        }
    }
}

/// What resolving entry `index` of the offset table gives, where `message`
/// holds what the entries before it gave.
///
/// An entry of zero stands for no block and leaves the message as it is.
/// Every other entry is the offset of a block, which is decoded and put in
/// the place of its kind.
pub open spec fn entry_resolved(
    s: Seq<u8>,
    start: int,
    header: Header,
    message: MessageView,
    index: int,
) -> Result<MessageView, Error> {
    let offset = offset_entry(s, start, index);
    if offset == 0 {
        Ok(message)
    } else {
        match block_at(s, start, header.radial_length as int, header.table_end(), offset as int) {
            Err(e) => Err(e),
            Ok(block) => Ok(message.with_block(block)),
        }
    }
}

/// What resolving the first `count` entries of the offset table gives, in
/// the message that starts at `start` and has the given header.
///
/// The entries are taken in the order of the table. The first block that
/// fails to decode fails the whole message; of two blocks of one kind the
/// later one stays.
pub open spec fn resolved(s: Seq<u8>, start: int, header: Header, count: int) -> Result<
    MessageView,
    Error,
>
    decreases count,
{
    if count <= 0 {
        Ok(MessageView::empty(header))
    } else {
        match resolved(s, start, header, count - 1) {
            Err(e) => Err(e),
            Ok(message) => entry_resolved(s, start, header, message, count - 1),
        }
    }
}

/// What decoding a digital radar data message at `start` gives.
///
/// The fixed header must be there. It may declare at most ten data blocks,
/// and the size that it declares must cover the header and the offset table
/// and must itself be there. Then every entry of the table is resolved.
pub open spec fn digital_radar_data_result(s: Seq<u8>, start: int) -> Result<MessageView, Error> {
    let header = header_at(s, start);
    if !in_bounds(s, start, HEADER_SIZE as int) {
        Err(Error::UnexpectedEof)
    } else if header.data_block_count > MAX_DATA_BLOCKS {
        Err(Error::CorruptMessage)
    } else if header.radial_length < header.table_end() {
        Err(Error::CorruptMessage)
    } else if !in_bounds(s, start, header.radial_length as int) {
        Err(Error::UnexpectedEof)
    } else {
        resolved(s, start, header, header.data_block_count as int)
    }
}

/// Once an entry has failed, the entries behind it change nothing.
pub proof fn lemma_failure_is_final(s: Seq<u8>, start: int, header: Header, failed: int, count: int)
    requires
        0 <= failed <= count,
        resolved(s, start, header, failed) is Err,
    ensures
        resolved(s, start, header, count) == resolved(s, start, header, failed),
    decreases count - failed,
{
    if failed < count {
        lemma_failure_is_final(s, start, header, failed, count - 1);
    }
}

/// Resolving data blocks never touches the header.
pub proof fn lemma_resolved_keeps_header(s: Seq<u8>, start: int, header: Header, count: int)
    ensures
        resolved(s, start, header, count) matches Ok(message) ==> message.header == header,
    decreases count,
{
    if count > 0 {
        lemma_resolved_keeps_header(s, start, header, count - 1);
    }
}

/// A decoded message carries the header that stands at its start.
pub proof fn law_decoded_message_keeps_header(s: Seq<u8>, start: int)
    ensures
        digital_radar_data_result(s, start) matches Ok(message) ==> message.header == header_at(
            s,
            start,
        ),
{
    let header = header_at(s, start);
    lemma_resolved_keeps_header(s, start, header, header.data_block_count as int);
}

/// Decodes the data block at `offset` of the message that starts at `start`.
pub(crate) fn decode_data_block(
    reader: &ByteReader,
    start: usize,
    declared: usize,
    floor: usize,
    offset: usize,
) -> (r: Result<DataBlock, Error>)
    requires
        in_bounds(reader.bytes(), start as int, declared as int),
    ensures
        match r {
            Ok(block) => block_at(
                reader.bytes(),
                start as int,
                declared as int,
                floor as int,
                offset as int,
            ) == Ok::<DataBlockView, Error>(block@),
            Err(e) => block_at(
                reader.bytes(),
                start as int,
                declared as int,
                floor as int,
                offset as int,
            ) == Err::<DataBlockView, Error>(e),
        },
{
    let _total: usize = reader.len();
    if offset < floor || offset > declared || declared - offset < DATA_BLOCK_ID_SIZE {
        return Err(Error::CorruptMessage);
    }
    let at: usize = start + offset;
    let room: usize = declared - offset;
    let id = DataBlockId::read_at(reader, at);
    match id.kind() {
        BlockKind::Volume => {
            if room < VOLUME_BLOCK_SIZE {
                return Err(Error::CorruptMessage);
            }
            Ok(DataBlock::Volume(VolumeDataBlock::read_at(reader, at)))
        },
        BlockKind::Elevation => {
            if room < ELEVATION_BLOCK_SIZE {
                return Err(Error::CorruptMessage);
            }
            Ok(DataBlock::Elevation(ElevationDataBlock::read_at(reader, at)))
        },
        BlockKind::Radial => {
            if room < RADIAL_BLOCK_SIZE {
                return Err(Error::CorruptMessage);
            }
            Ok(DataBlock::Radial(RadialDataBlock::read_at(reader, at)))
        },
        BlockKind::Moment(moment) => {
            match GenericDataBlock::read_at(reader, at, room) {
                Ok(block) => Ok(DataBlock::Moment(moment, block)),
                Err(e) => Err(e),
            }
        },
        BlockKind::Unknown => {
            if room < SIZED_TAG_SIZE {
                return Err(Error::CorruptMessage);
            }
            let size: usize = reader.u16_at(at + DATA_BLOCK_ID_SIZE) as usize;
            if size < SIZED_TAG_SIZE || size > room {
                return Err(Error::CorruptMessage);
            }
            Ok(DataBlock::Skipped)
        },
    }
}

/// Resolves entry `index` of the offset table into `message`.
fn resolve_entry(
    reader: &ByteReader,
    start: usize,
    header: &Header,
    message: Message,
    index: usize,
) -> (r: Result<Message, Error>)
    requires
        in_bounds(reader.bytes(), start as int, header.radial_length as int),
        header.table_end() <= header.radial_length,
        index < header.data_block_count <= MAX_DATA_BLOCKS,
    ensures
        match r {
            Ok(next) => entry_resolved(
                reader.bytes(),
                start as int,
                *header,
                message@,
                index as int,
            ) == Ok::<MessageView, Error>(next@),
            Err(e) => entry_resolved(
                reader.bytes(),
                start as int,
                *header,
                message@,
                index as int,
            ) == Err::<MessageView, Error>(e),
        },
        r matches Ok(next) ==> next.header == message.header,
{
    let _total: usize = reader.len();
    let count: usize = header.data_block_count as usize;
    let floor: usize = HEADER_SIZE + 4 * count;
    let declared: usize = header.radial_length as usize;
    let offset: usize = reader.u32_at(start + HEADER_SIZE + 4 * index) as usize;
    if offset == 0 {
        return Ok(message);
    }
    match decode_data_block(reader, start, declared, floor, offset) {
        Ok(block) => {
            let mut next = message;
            next.place(block);
            Ok(next)
        },
        Err(e) => Err(e),
    }
}

/// Decodes the digital radar data message whose body starts at the reader's
/// position.
///
/// On success the reader stands behind the message: it has moved by the
/// length that the header declares. On failure it stays in place. No byte
/// outside the declared length is ever read.
pub fn decode_digital_radar_data(reader: &mut ByteReader) -> (r: Result<Message, Error>)
    ensures
        match r {
            Ok(message) => digital_radar_data_result(old(reader).bytes(), old(reader).pos()) == Ok::<
                MessageView,
                Error,
            >(message@),
            Err(e) => digital_radar_data_result(old(reader).bytes(), old(reader).pos()) == Err::<
                MessageView,
                Error,
            >(e),
        },
        final(reader).bytes() == old(reader).bytes(),
        final(reader).pos() == old(reader).pos() + (match r {
            Ok(message) => message.header.radial_length as int,
            Err(_) => 0int,
        }),
{
    if reader.remaining() < HEADER_SIZE {
        return Err(Error::UnexpectedEof);
    }
    let start: usize = reader.position();
    let header = Header::read_at(reader, start);
    if header.data_block_count > MAX_DATA_BLOCKS {
        return Err(Error::CorruptMessage);
    }
    let count: usize = header.data_block_count as usize;
    let floor: usize = HEADER_SIZE + 4 * count;
    let declared: usize = header.radial_length as usize;
    if declared < floor {
        return Err(Error::CorruptMessage);
    }
    if reader.remaining() < declared {
        return Err(Error::UnexpectedEof);
    }
    let mut message = Message::new(header);
    let mut index: usize = 0;
    while index < count
        invariant
            index <= count,
            count == header.data_block_count,
            count <= MAX_DATA_BLOCKS,
            declared == header.radial_length,
            header.table_end() <= declared,
            in_bounds(reader.bytes(), start as int, declared as int),
            reader.pos() == start == old(reader).pos(),
            reader.bytes() == old(reader).bytes(),
            message.header == header,
            digital_radar_data_result(reader.bytes(), start as int) == resolved(
                reader.bytes(),
                start as int,
                header,
                count as int,
            ),
            resolved(reader.bytes(), start as int, header, index as int) == Ok::<
                MessageView,
                Error,
            >(message@),
        decreases count - index,
    {
        match resolve_entry(reader, start, &header, message, index) {
            Ok(next) => {
                message = next;
            },
            Err(e) => {
                proof {
                    lemma_failure_is_final(
                        reader.bytes(),
                        start as int,
                        header,
                        index + 1,
                        count as int,
                    );
                }
                return Err(e);
            },
        }
        index = index + 1;
    }
    reader.advance(declared);
    Ok(message)
}

} // verus!
