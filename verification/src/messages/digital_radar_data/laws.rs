//! What holds of every digital radar data message, proved from the
//! functions that define the decoder's result.

use crate::bytes::{in_bounds, lemma_same_rest_agrees, same_rest};
use crate::messages::digital_radar_data::data_block_id::DATA_BLOCK_ID_SIZE;
use crate::messages::digital_radar_data::generic_data_block::{
    generic_block_result, generic_header_at, law_decoded_block_is_well_formed, sample_at,
    samples_at, GENERIC_HEADER_SIZE,
};
use crate::messages::digital_radar_data::header::{header_at, Header, HEADER_SIZE, MAX_DATA_BLOCKS};
use crate::messages::digital_radar_data::message::{DataBlockView, MessageView};
use crate::messages::digital_radar_data::{
    block_at, digital_radar_data_result, lemma_failure_is_final, offset_entry, resolved,
    BlockKind, Moment,
};
use crate::result::Error;
use vstd::prelude::*;

verus! {

/// Whether the messages that start at the given places agree in all the
/// bytes of their declared size.
spec fn bodies_agree(s1: Seq<u8>, start1: int, s2: Seq<u8>, start2: int, declared: int) -> bool {
    &&& in_bounds(s1, start1, declared)
    &&& in_bounds(s2, start2, declared)
    &&& forall|i: int| start1 <= i < start1 + declared ==> #[trigger] s1[i] == s2[i - start1 + start2]
}

proof fn lemma_block_agrees(
    s1: Seq<u8>,
    start1: int,
    s2: Seq<u8>,
    start2: int,
    declared: int,
    floor: int,
    offset: int,
)
    requires
        bodies_agree(s1, start1, s2, start2, declared),
        0 <= floor,
    ensures
        block_at(s1, start1, declared, floor, offset) == block_at(
            s2,
            start2,
            declared,
            floor,
            offset,
        ),
{
    let room = declared - offset;
    if offset >= floor && room >= DATA_BLOCK_ID_SIZE {
        let at1 = start1 + offset;
        let at2 = start2 + offset;
        if room >= GENERIC_HEADER_SIZE {
            let header = generic_header_at(s1, at1);
            assert(header == generic_header_at(s2, at2));
            if header.word_size_supported() && GENERIC_HEADER_SIZE + header.data_len() <= room {
                let gates = header.number_of_data_moment_gates as nat;
                let width = header.data_word_size;
                let data1 = at1 + GENERIC_HEADER_SIZE;
                let data2 = at2 + GENERIC_HEADER_SIZE;
                assert(header.data_len() == (if width == 16 {
                    2 * gates
                } else {
                    gates
                }));
                assert forall|g: int| 0 <= g < gates implies sample_at(s1, data1, width, g)
                    == sample_at(s2, data2, width, g) by {
                    if width == 16 {
                        assert(s1[data1 + 2 * g] == s2[data2 + 2 * g]);
                        assert(s1[data1 + 2 * g + 1] == s2[data2 + 2 * g + 1]);
                    } else {
                        assert(s1[data1 + g] == s2[data2 + g]);
                    }
                }
                assert(samples_at(s1, data1, width, gates) =~= samples_at(s2, data2, width, gates));
            }
        }
        assert(generic_block_result(s1, at1, room) == generic_block_result(s2, at2, room));
    }
}

proof fn lemma_resolved_agrees(
    s1: Seq<u8>,
    start1: int,
    s2: Seq<u8>,
    start2: int,
    header: Header,
    count: int,
)
    requires
        bodies_agree(s1, start1, s2, start2, header.radial_length as int),
        count <= header.data_block_count,
        header.table_end() <= header.radial_length,
    ensures
        resolved(s1, start1, header, count) == resolved(s2, start2, header, count),
    decreases count,
{
    if count > 0 {
        lemma_resolved_agrees(s1, start1, s2, start2, header, count - 1);
        assert(offset_entry(s1, start1, count - 1) == offset_entry(s2, start2, count - 1));
        lemma_block_agrees(
            s1,
            start1,
            s2,
            start2,
            header.radial_length as int,
            header.table_end(),
            offset_entry(s1, start1, count - 1) as int,
        );
    }
}

/// Decoding is a function of the bytes from the reader's position on, and of
/// nothing else: two buffers that hold the same bytes behind their positions
/// decode to the same message or fail with the same error, whatever stands
/// before the positions. In particular, decoding the same buffer twice gives
/// the same result.
pub proof fn law_decoding_reads_the_rest_only(s1: Seq<u8>, at1: int, s2: Seq<u8>, at2: int)
    requires
        same_rest(s1, at1, s2, at2),
    ensures
        digital_radar_data_result(s1, at1) == digital_radar_data_result(s2, at2),
{
    lemma_same_rest_agrees(s1, at1, s2, at2);
    if in_bounds(s1, at1, HEADER_SIZE as int) {
        let header = header_at(s1, at1);
        assert(header == header_at(s2, at2));
        if header.data_block_count <= MAX_DATA_BLOCKS && header.table_end() <= header.radial_length
            && in_bounds(s1, at1, header.radial_length as int) {
            lemma_resolved_agrees(s1, at1, s2, at2, header, header.data_block_count as int);
        }
    }
}

/// An entry of the offset table that leaves no room for a tag within the
/// declared size fails the message, and fails it as a corrupt message where
/// the header is sound and the entries before it resolve.
pub proof fn law_offset_beyond_declared_size(s: Seq<u8>, start: int, index: int)
    requires
        in_bounds(s, start, HEADER_SIZE as int),
        0 <= index < header_at(s, start).data_block_count,
        offset_entry(s, start, index) + DATA_BLOCK_ID_SIZE > header_at(s, start).radial_length,
        offset_entry(s, start, index) != 0,
    ensures
        digital_radar_data_result(s, start) is Err,
        ({
            let header = header_at(s, start);
            &&& header.data_block_count <= MAX_DATA_BLOCKS
            &&& header.table_end() <= header.radial_length
            &&& in_bounds(s, start, header.radial_length as int)
            &&& resolved(s, start, header, index) is Ok
        }) ==> digital_radar_data_result(s, start) == Err::<MessageView, Error>(
            Error::CorruptMessage,
        ),
{
    let header = header_at(s, start);
    if header.data_block_count <= MAX_DATA_BLOCKS && header.table_end() <= header.radial_length
        && in_bounds(s, start, header.radial_length as int) {
        assert(resolved(s, start, header, index + 1) is Err);
        lemma_failure_is_final(s, start, header, index + 1, header.data_block_count as int);
    }
}

/// A message that decodes declares at most ten blocks and a size that
/// covers its header and offset table and lies within the buffer; and every
/// moment data block of it is well formed.
pub proof fn law_decoded_message_is_sound(s: Seq<u8>, start: int)
    ensures
        digital_radar_data_result(s, start) matches Ok(message) ==> {
            &&& message.header == header_at(s, start)
            &&& message.header.data_block_count <= MAX_DATA_BLOCKS
            &&& message.header.table_end() <= message.header.radial_length
            &&& in_bounds(s, start, message.header.radial_length as int)
            &&& forall|moment: Moment|
                (#[trigger] message.moment(moment)) matches Some(block) ==> block.well_formed()
        },
{
    let header = header_at(s, start);
    lemma_resolved_is_sound(s, start, header, header.data_block_count as int);
}

proof fn lemma_resolved_is_sound(s: Seq<u8>, start: int, header: Header, count: int)
    ensures
        resolved(s, start, header, count) matches Ok(message) ==> {
            &&& message.header == header
            &&& forall|moment: Moment|
                (#[trigger] message.moment(moment)) matches Some(block) ==> block.well_formed()
        },
    decreases count,
{
    if count > 0 {
        lemma_resolved_is_sound(s, start, header, count - 1);
        let offset = offset_entry(s, start, count - 1) as int;
        let declared = header.radial_length as int;
        if let Ok(after) = resolved(s, start, header, count) {
            let before = resolved(s, start, header, count - 1)->Ok_0;
            if offset != 0 {
                let block = block_at(s, start, declared, header.table_end(), offset)->Ok_0;
                law_decoded_block_is_well_formed(s, start + offset, declared - offset);
                assert(after == before.with_block(block));
                assert forall|moment: Moment|
                    (#[trigger] after.moment(moment)) is Some implies after.moment(
                    moment,
                )->Some_0.well_formed() by {
                    if after.moment(moment) != before.moment(moment) {
                        assert(block matches DataBlockView::Moment(_, placed) && after.moment(
                            moment,
                        ) == Some(placed));
                    }
                }
            }
        }
    }
}

/// What entry `index` of the offset table stands for: no block where the
/// entry is zero, and else what decoding the block at the entry's offset
/// gives.
pub open spec fn entry_block(s: Seq<u8>, start: int, header: Header, index: int) -> Option<
    Result<DataBlockView, Error>,
> {
    let offset = offset_entry(s, start, index);
    if offset == 0 {
        None
    } else {
        Some(block_at(s, start, header.radial_length as int, header.table_end(), offset as int))
    }
}

/// Whether entry `index` stands for a block that fails to decode.
pub open spec fn entry_fails(s: Seq<u8>, start: int, header: Header, index: int) -> bool {
    entry_block(s, start, header, index) matches Some(Err(_))
}

/// Whether entry `index` stands for a block of the given kind that decodes.
pub open spec fn entry_is_of_kind(
    s: Seq<u8>,
    start: int,
    header: Header,
    index: int,
    kind: BlockKind,
) -> bool {
    entry_block(s, start, header, index) matches Some(Ok(block)) && block.kind() == kind
}

/// Putting a block in its place changes the place of its kind and no other.
pub proof fn lemma_with_block_changes_one_place(
    message: MessageView,
    block: DataBlockView,
    kind: BlockKind,
)
    ensures
        message.with_block(block).header == message.header,
        message.with_block(block).block(kind) == (if kind == block.kind() && kind
            != BlockKind::Unknown {
            Some(block)
        } else {
            message.block(kind)
        }),
{
}

/// The entries resolve exactly when none of them fails.
pub proof fn law_entries_resolve_unless_one_fails(
    s: Seq<u8>,
    start: int,
    header: Header,
    count: int,
)
    requires
        0 <= count,
    ensures
        resolved(s, start, header, count) is Ok <==> forall|index: int|
            0 <= index < count ==> !#[trigger] entry_fails(s, start, header, index),
    decreases count,
{
    if count > 0 {
        let last = count - 1;
        law_entries_resolve_unless_one_fails(s, start, header, last);
        if resolved(s, start, header, count) is Ok {
            assert forall|index: int| 0 <= index < count implies !#[trigger] entry_fails(
                s,
                start,
                header,
                index,
            ) by {
                if index == last {
                    assert(!entry_fails(s, start, header, last));
                }
            }
        }
        if forall|index: int|
            0 <= index < count ==> !#[trigger] entry_fails(s, start, header, index) {
            assert(!entry_fails(s, start, header, last));
            assert forall|index: int| 0 <= index < last implies !#[trigger] entry_fails(
                s,
                start,
                header,
                index,
            ) by {}
        }
    }
}

/// Where an entry fails and none before it does, its error is the error of
/// the whole table, whatever stands behind it.
pub proof fn law_first_failure_decides(
    s: Seq<u8>,
    start: int,
    header: Header,
    count: int,
    index: int,
)
    requires
        0 <= index < count,
        entry_fails(s, start, header, index),
        forall|before: int| 0 <= before < index ==> !#[trigger] entry_fails(s, start, header, before),
    ensures
        resolved(s, start, header, count) == Err::<MessageView, Error>(
            entry_block(s, start, header, index)->Some_0->Err_0,
        ),
{
    law_entries_resolve_unless_one_fails(s, start, header, index);
    assert(resolved(s, start, header, index + 1) is Err);
    lemma_failure_is_final(s, start, header, index + 1, count);
}

/// In a message that resolves, the place of each kind holds the block of the
/// last entry of that kind, and is empty where no entry is of that kind.
pub proof fn law_last_block_of_a_kind_stays(
    s: Seq<u8>,
    start: int,
    header: Header,
    count: int,
    kind: BlockKind,
)
    requires
        0 <= count,
        resolved(s, start, header, count) is Ok,
    ensures
        ({
            let message = resolved(s, start, header, count)->Ok_0;
            &&& forall|index: int|
                0 <= index < count && #[trigger] entry_is_of_kind(s, start, header, index, kind)
                    && kind != BlockKind::Unknown && (forall|after: int|
                    index < after < count ==> !#[trigger] entry_is_of_kind(
                        s,
                        start,
                        header,
                        after,
                        kind,
                    )) ==> message.block(kind) == Some(
                    entry_block(s, start, header, index)->Some_0->Ok_0,
                )
            &&& (forall|index: int|
                0 <= index < count ==> !#[trigger] entry_is_of_kind(s, start, header, index, kind))
                ==> message.block(kind) is None
        }),
    decreases count,
{
    if count > 0 {
        let last = count - 1;
        let before = resolved(s, start, header, last)->Ok_0;
        let after = resolved(s, start, header, count)->Ok_0;
        law_last_block_of_a_kind_stays(s, start, header, last, kind);
        if let Some(Ok(block)) = entry_block(s, start, header, last) {
            lemma_with_block_changes_one_place(before, block, kind);
        }
        assert forall|index: int|
            0 <= index < count && #[trigger] entry_is_of_kind(s, start, header, index, kind)
                && kind != BlockKind::Unknown && (forall|later: int|
                index < later < count ==> !#[trigger] entry_is_of_kind(
                    s,
                    start,
                    header,
                    later,
                    kind,
                )) implies after.block(kind) == Some(
            entry_block(s, start, header, index)->Some_0->Ok_0,
        ) by {
            if index < last {
                assert(!entry_is_of_kind(s, start, header, last, kind));
                assert forall|later: int| index < later < last implies !#[trigger] entry_is_of_kind(
                    s,
                    start,
                    header,
                    later,
                    kind,
                ) by {}
            }
        }
        if forall|index: int|
            0 <= index < count ==> !#[trigger] entry_is_of_kind(s, start, header, index, kind) {
            assert(!entry_is_of_kind(s, start, header, last, kind));
            assert forall|index: int| 0 <= index < last implies !#[trigger] entry_is_of_kind(
                s,
                start,
                header,
                index,
                kind,
            ) by {}
        }
    }
}

} // verus!
