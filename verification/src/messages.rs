//! Messages: the header common to all of them, and the kinds with a decoder.

pub mod digital_radar_data;
pub mod message_header;
pub mod message_type;

pub use message_header::MessageHeader;
pub use message_type::MessageType;

use crate::bytes::{in_bounds, lemma_same_rest_agrees, same_rest, ByteReader};
use crate::messages::digital_radar_data::laws::law_decoding_reads_the_rest_only;
use crate::messages::digital_radar_data::{
    decode_digital_radar_data, digital_radar_data_result, Message, MessageView,
};
use crate::messages::message_header::{
    message_header_at, HEADER_PROPER_SIZE, MESSAGE_HEADER_SIZE, PREFIX_SIZE,
};
use crate::result::Error;
use vstd::prelude::*;

verus! {

/// What decoding a message header at `at` gives: the header, if all of its
/// fixed region is there.
pub open spec fn message_header_result(s: Seq<u8>, at: int) -> Result<MessageHeader, Error> {
    if in_bounds(s, at, MESSAGE_HEADER_SIZE as int) {
        Ok(message_header_at(s, at))
    } else {
        Err(Error::UnexpectedEof)
    }
}

/// Decodes the header of the message that starts at the reader's position.
///
/// The reader moves over the fixed region of the header, 28 bytes, and over
/// nothing of the body. Where fewer bytes are left the reader stays in place.
pub fn decode_message_header(reader: &mut ByteReader) -> (r: Result<MessageHeader, Error>)
    ensures
        r == message_header_result(old(reader).bytes(), old(reader).pos()),
        final(reader).bytes() == old(reader).bytes(),
        final(reader).pos() == old(reader).pos() + (if r is Ok {
            MESSAGE_HEADER_SIZE as int
        } else {
            0int
        }),
{
    if reader.remaining() < MESSAGE_HEADER_SIZE {
        return Err(Error::UnexpectedEof);
    }
    let proper: usize = reader.position() + PREFIX_SIZE;
    let header = MessageHeader {
        segment_size: reader.u16_at(proper),
        redundant_channel: reader.u8_at(proper + 2),
        message_type: reader.u8_at(proper + 3),
        sequence_number: reader.u16_at(proper + 4),
        date: reader.u16_at(proper + 6),
        time: reader.u32_at(proper + 8),
        segment_count: reader.u16_at(proper + 12),
        segment_number: reader.u16_at(proper + 14),
    };
    reader.advance(MESSAGE_HEADER_SIZE);
    Ok(header)
}

/// A message: its header and, where it is a digital radar data message, its
/// decoded body. The body of every other kind of message is stepped over.
#[derive(Debug, Clone, PartialEq, Eq)]
pub struct MessageWithHeader {
    /// The header of the message.
    pub header: MessageHeader,
    /// The body, for a digital radar data message.
    pub digital_radar_data: Option<Message>,
}

/// A message as a mathematical value.
pub struct MessageWithHeaderView {
    /// The header of the message.
    pub header: MessageHeader,
    /// The body, for a digital radar data message.
    pub digital_radar_data: Option<MessageView>,
}

impl View for MessageWithHeader {
    type V = MessageWithHeaderView;

    open spec fn view(&self) -> MessageWithHeaderView {
        MessageWithHeaderView {
            header: self.header,
            digital_radar_data: match self.digital_radar_data {
                Some(message) => Some(message@),
                None => None,
            },
        }
    }
}

/// The number of body bytes that a header declares: the declared size less
/// the header proper. It is negative where the size does not even cover the
/// header proper.
pub open spec fn body_len(header: MessageHeader) -> int {
    header.size_bytes() - HEADER_PROPER_SIZE
}

/// What decoding the message at `at` gives.
///
/// The header must be there, the size that it declares must cover the header
/// proper, and the body must be there in its declared length. The body of a
/// digital radar data message is decoded and must not declare a length beyond
/// that of the message. The body of any other message is not looked at.
pub open spec fn message_result(s: Seq<u8>, at: int) -> Result<MessageWithHeaderView, Error> {
    let header = message_header_at(s, at);
    let body = at + MESSAGE_HEADER_SIZE;
    if !in_bounds(s, at, MESSAGE_HEADER_SIZE as int) {
        Err(Error::UnexpectedEof)
    } else if body_len(header) < 0 {
        Err(Error::CorruptMessage)
    } else if !in_bounds(s, body, body_len(header)) {
        Err(Error::UnexpectedEof)
    } else if header.kind() != MessageType::DigitalRadarData {
        Ok(MessageWithHeaderView { header, digital_radar_data: None })
    } else {
        match digital_radar_data_result(s, body) {
            Err(e) => Err(e),
            Ok(message) => if message.header.radial_length > body_len(header) {
                Err(Error::CorruptMessage)
            } else {
                Ok(MessageWithHeaderView { header, digital_radar_data: Some(message) })
            },
        }
    }
}

/// Decodes the message that starts at the reader's position: the header, and
/// the body where the message is a digital radar data message.
///
/// On success the reader stands behind the message, having moved over the
/// header and over exactly the body bytes that the header declares, whatever
/// the kind of the message. On failure it stays in place.
pub fn decode_message(reader: &mut ByteReader) -> (r: Result<MessageWithHeader, Error>)
    ensures
        match r {
            Ok(message) => message_result(old(reader).bytes(), old(reader).pos()) == Ok::<
                MessageWithHeaderView,
                Error,
            >(message@),
            Err(e) => message_result(old(reader).bytes(), old(reader).pos()) == Err::<
                MessageWithHeaderView,
                Error,
            >(e),
        },
        final(reader).bytes() == old(reader).bytes(),
        final(reader).pos() == old(reader).pos() + (match r {
            Ok(message) => MESSAGE_HEADER_SIZE + body_len(message.header),
            Err(_) => 0int,
        }),
{
    let at: usize = reader.position();
    let header = match decode_message_header(reader) {
        Ok(header) => header,
        Err(e) => {
            return Err(e);
        },
    };
    let size: usize = header.message_size_bytes() as usize;
    if size < HEADER_PROPER_SIZE {
        reader.rewind(at);
        return Err(Error::CorruptMessage);
    }
    let body_len: usize = size - HEADER_PROPER_SIZE;
    if reader.remaining() < body_len {
        reader.rewind(at);
        return Err(Error::UnexpectedEof);
    }
    if !header.message_type().is_digital_radar_data() {
        reader.advance(body_len);
        return Ok(MessageWithHeader { header, digital_radar_data: None });
    }
    let body: usize = reader.position();
    match decode_digital_radar_data(reader) {
        Err(e) => {
            reader.rewind(at);
            Err(e)
        },
        Ok(message) => {
            if message.header.radial_length as usize > body_len {
                reader.rewind(at);
                return Err(Error::CorruptMessage);
            }
            reader.rewind(body);
            reader.advance(body_len);
            Ok(MessageWithHeader { header, digital_radar_data: Some(message) })
        },
    }
}

/// A message of a kind without a name here still has its header decoded, with
/// the code of its kind carried as it was read, and it never has a digital
/// radar data body: only code 31 leads there.
pub proof fn law_unrecognized_message_keeps_header(s: Seq<u8>, at: int)
    requires
        in_bounds(s, at, MESSAGE_HEADER_SIZE as int),
    ensures
        message_header_result(s, at) == Ok::<MessageHeader, Error>(message_header_at(s, at)),
        message_header_at(s, at).message_type == s[at + 15],
        message_header_at(s, at).kind().spec_code() == s[at + 15],
        message_result(s, at) matches Ok(message) ==> message.header == message_header_at(s, at) && (
        message.digital_radar_data is Some <==> s[at + 15] == 31),
        s[at + 15] != 31 ==> (message_result(s, at) is Ok <==> in_bounds(
            s,
            at + MESSAGE_HEADER_SIZE,
            body_len(message_header_at(s, at)),
        )),
{
}

/// Decoding a message is a function of the bytes from the reader's position
/// on: two buffers that hold the same bytes behind their positions give the
/// same header and the same message, or fail alike.
pub proof fn law_message_reads_the_rest_only(s1: Seq<u8>, at1: int, s2: Seq<u8>, at2: int)
    requires
        same_rest(s1, at1, s2, at2),
    ensures
        message_header_result(s1, at1) == message_header_result(s2, at2),
        message_result(s1, at1) == message_result(s2, at2),
{
    lemma_same_rest_agrees(s1, at1, s2, at2);
    if in_bounds(s1, at1, MESSAGE_HEADER_SIZE as int) {
        let header = message_header_at(s1, at1);
        assert(header == message_header_at(s2, at2));
        let body1 = at1 + MESSAGE_HEADER_SIZE;
        let body2 = at2 + MESSAGE_HEADER_SIZE;
        assert(s1.skip(body1) =~= s1.skip(at1).skip(MESSAGE_HEADER_SIZE as int));
        assert(s2.skip(body2) =~= s2.skip(at2).skip(MESSAGE_HEADER_SIZE as int));
        law_decoding_reads_the_rest_only(s1, body1, s2, body2);
    }
}

} // verus!
