//! The kinds of message that a record can carry.

use vstd::prelude::*;

verus! {

/// The code of the status message.
pub const RDA_STATUS_DATA_CODE: u8 = 2;

/// The code of the digital radar data message.
pub const DIGITAL_RADAR_DATA_CODE: u8 = 31;

/// The kind of a message, as its header declares it.
///
/// The two kinds that this crate knows have names. Every other code is kept
/// as it was read, so that a caller can step over the message by its declared
/// size without the decoder understanding it.
#[derive(Debug, Clone, Copy, PartialEq, Eq, Structural)]
pub enum MessageType {
    /// Status of the radar data acquisition unit.
    RdaStatusData,
    /// Base data of one radial in the generic format.
    DigitalRadarData,
    /// A code without a name here, carried unchanged.
    Unrecognized(u8),
}

impl MessageType {
    /// The kind that `code` stands for.
    pub open spec fn of_code(code: u8) -> MessageType {
        if code == RDA_STATUS_DATA_CODE {
            MessageType::RdaStatusData
        } else if code == DIGITAL_RADAR_DATA_CODE {
            MessageType::DigitalRadarData
        } else {
            MessageType::Unrecognized(code)
        }
    }

    /// The code that stands for this kind.
    pub open spec fn spec_code(self) -> u8 {
        match self {
            MessageType::RdaStatusData => RDA_STATUS_DATA_CODE,
            MessageType::DigitalRadarData => DIGITAL_RADAR_DATA_CODE,
            MessageType::Unrecognized(code) => code,
        }
    }

    /// Decides [`MessageType::of_code`].
    pub fn from_code(code: u8) -> (r: Self)
        ensures
            r == Self::of_code(code),
    {
        if code == RDA_STATUS_DATA_CODE {
            MessageType::RdaStatusData
        } else if code == DIGITAL_RADAR_DATA_CODE {
            MessageType::DigitalRadarData
        } else {
            MessageType::Unrecognized(code)
        }
    }

    /// Computes [`MessageType::spec_code`].
    pub fn code(&self) -> (r: u8)
        ensures
            r == self.spec_code(),
    {
        match self {
            MessageType::RdaStatusData => RDA_STATUS_DATA_CODE,
            MessageType::DigitalRadarData => DIGITAL_RADAR_DATA_CODE,
            MessageType::Unrecognized(code) => *code,
        }
    }

    /// Whether the message has a typed decoder in this crate's digital radar
    /// data path.
    pub fn is_digital_radar_data(&self) -> (r: bool)
        ensures
            r == (*self == MessageType::DigitalRadarData),
    {
        match self {
            MessageType::DigitalRadarData => true,
            _ => false,
        }
    }
}

/// No code is lost: the kind that a code stands for gives the code back, and
/// a code that has no name is carried as it is.
pub proof fn law_message_type_keeps_code(code: u8)
    ensures
        MessageType::of_code(code).spec_code() == code,
        code != RDA_STATUS_DATA_CODE && code != DIGITAL_RADAR_DATA_CODE ==> MessageType::of_code(
            code,
        ) == MessageType::Unrecognized(code),
        MessageType::of_code(code) == MessageType::DigitalRadarData <==> code
            == DIGITAL_RADAR_DATA_CODE,
{
}

} // verus!
