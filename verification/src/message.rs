//! Decoding of single messages into the common model.

use crate::bytes::ByteReader;
use crate::messages::digital_radar_data::header::header_at;
use crate::model::{decode_digital_radar_data, radial_result, Radial, RadialView};
use crate::result::Error;
use vstd::prelude::*;

verus! {

/// Decodes the body of a digital radar data message into a radial.
///
/// This is [`decode_digital_radar_data`] under the name that callers of the
/// top level of the crate look for.
pub fn digital_radar_data(reader: &mut ByteReader) -> (r: Result<Radial, Error>)
    ensures
        match r {
            Ok(radial) => radial_result(old(reader).bytes(), old(reader).pos()) == Ok::<
                RadialView,
                Error,
            >(radial@),
            Err(e) => radial_result(old(reader).bytes(), old(reader).pos()) == Err::<
                RadialView,
                Error,
            >(e),
        },
        final(reader).bytes() == old(reader).bytes(),
        final(reader).pos() == old(reader).pos() + (if r is Ok {
            header_at(old(reader).bytes(), old(reader).pos()).radial_length as int
        } else {
            0int
        }),
{
    decode_digital_radar_data(reader)
}

} // verus!
