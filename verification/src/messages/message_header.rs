//! The header that precedes every message.

use crate::bytes::{be_u16, be_u32};
use crate::messages::message_type::MessageType;
use vstd::prelude::*;

verus! {

/// The width of the channel and terminal prefix that precedes the header
/// proper.
pub const PREFIX_SIZE: usize = 12;

/// The width of the header proper.
pub const HEADER_PROPER_SIZE: usize = 16;

/// The width of the whole fixed region: prefix and header proper.
pub const MESSAGE_HEADER_SIZE: usize = 28;

/// The milliseconds of one day.
pub const MILLIS_PER_DAY: i64 = 86_400_000;

/// The header of a message. The prefix in front of it carries nothing and is
/// not kept.
#[derive(Debug, Clone, Copy, PartialEq, Eq, Structural)]
pub struct MessageHeader {
    /// Size of the message in halfwords, the header proper included.
    pub segment_size: u16,
    /// The channel that the message came over.
    pub redundant_channel: u8,
    /// The code of the message's kind, as read.
    pub message_type: u8,
    /// Sequence number of the message.
    pub sequence_number: u16,
    /// Days since 1 January 1970, which is day 1.
    pub date: u16,
    /// Milliseconds past midnight, Greenwich Mean Time.
    pub time: u32,
    /// Number of segments of the message.
    pub segment_count: u16,
    /// Number of this segment.
    pub segment_number: u16,
}

/// The header whose fixed region starts at `at`: the prefix first, then the
/// fields of the header proper, one behind the other.
pub open spec fn message_header_at(s: Seq<u8>, at: int) -> MessageHeader {
    let proper = at + PREFIX_SIZE;
    MessageHeader {
        segment_size: be_u16(s, proper),
        redundant_channel: s[proper + 2],
        message_type: s[proper + 3],
        sequence_number: be_u16(s, proper + 4),
        date: be_u16(s, proper + 6),
        time: be_u32(s, proper + 8),
        segment_count: be_u16(s, proper + 12),
        segment_number: be_u16(s, proper + 14),
    }
}

impl MessageHeader {
    /// The kind of the message.
    pub open spec fn kind(self) -> MessageType {
        MessageType::of_code(self.message_type)
    }

    /// The declared size of the message in bytes, the header proper included.
    pub open spec fn size_bytes(self) -> int {
        self.segment_size * 2
    }

    /// The milliseconds from the start of day 0 to the message's time.
    pub open spec fn timestamp(self) -> int {
        self.date * MILLIS_PER_DAY + self.time
    }

    /// Computes [`MessageHeader::kind`].
    pub fn message_type(&self) -> (r: MessageType)
        ensures
            r == self.kind(),
    {
        MessageType::from_code(self.message_type)
    }

    /// Computes [`MessageHeader::size_bytes`].
    pub fn message_size_bytes(&self) -> (r: u32)
        ensures
            r == self.size_bytes(),
    {
        let halfwords: u32 = self.segment_size as u32;
        halfwords * 2
    }

    /// Computes [`MessageHeader::timestamp`].
    pub fn timestamp_millis(&self) -> (r: i64)
        ensures
            r == self.timestamp(),
    {
        let days: i64 = self.date as i64;
        let millis: i64 = self.time as i64;
        days * MILLIS_PER_DAY + millis
    }
}

} // verus!
