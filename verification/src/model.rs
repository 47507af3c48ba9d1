//! A radial as presentation layers want it: header scalars together with the
//! moments, each sample told apart from the reserved codes.

use crate::bytes::{same_rest, ByteReader};
use crate::messages::digital_radar_data::header::header_at;
use crate::messages::digital_radar_data::laws::law_decoding_reads_the_rest_only;
use crate::messages::digital_radar_data::{
    digital_radar_data_result, law_decoded_message_keeps_header,
};
use crate::real4::{Real4, ONE_BITS, ONE_HALF_BITS};
use crate::result::Error;
use vstd::prelude::*;

verus! {

/// The raw code of a sample below the signal threshold.
pub const BELOW_THRESHOLD_CODE: u16 = 0;

/// The raw code of a range folded sample.
pub const RANGE_FOLDED_CODE: u16 = 1;

/// The place of a radial within the sequence of radials of a scan.
#[derive(Debug, Clone, Copy, PartialEq, Eq, Structural)]
pub enum RadialStatus {
    /// First radial of an elevation.
    ElevationStart,
    /// A radial within an elevation.
    IntermediateRadialData,
    /// Last radial of an elevation.
    ElevationEnd,
    /// First radial of a volume scan.
    VolumeScanStart,
    /// Last radial of a volume scan.
    VolumeScanEnd,
    /// First radial of the last elevation of the coverage pattern. Every code
    /// without a meaning of its own lands here.
    ElevationStartVCPFinal,
}

/// The status that a radial status code stands for.
pub open spec fn radial_status_of(code: u8) -> RadialStatus {
    if code == 0 {
        RadialStatus::ElevationStart
    } else if code == 1 {
        RadialStatus::IntermediateRadialData
    } else if code == 2 {
        RadialStatus::ElevationEnd
    } else if code == 3 {
        RadialStatus::VolumeScanStart
    } else if code == 4 {
        RadialStatus::VolumeScanEnd
    } else {
        RadialStatus::ElevationStartVCPFinal
    }
}

/// The azimuthal spacing, in degrees, that a spacing code stands for: one
/// half for code 1, one for every other code.
pub open spec fn azimuth_spacing_of(code: u8) -> Real4 {
    if code == 1 {
        Real4 { bits: ONE_HALF_BITS }
    } else {
        Real4 { bits: ONE_BITS }
    }
}

/// Computes [`radial_status_of`].
pub fn radial_status(code: u8) -> (r: RadialStatus)
    ensures
        r == radial_status_of(code),
{
    match code {
        0 => RadialStatus::ElevationStart,
        1 => RadialStatus::IntermediateRadialData,
        2 => RadialStatus::ElevationEnd,
        3 => RadialStatus::VolumeScanStart,
        4 => RadialStatus::VolumeScanEnd,
        _ => RadialStatus::ElevationStartVCPFinal,
    }
}

/// Computes [`azimuth_spacing_of`].
pub fn azimuth_spacing(code: u8) -> (r: Real4)
    ensures
        r == azimuth_spacing_of(code),
{
    match code {
        1 => Real4 { bits: ONE_HALF_BITS },
        _ => Real4 { bits: ONE_BITS },
    }
}

/// The codes 0 to 4 stand for five different statuses, and all other codes
/// for one sixth status.
pub proof fn law_radial_status_codes(a: u8, b: u8)
    ensures
        a <= 4 && b <= 4 && a != b ==> radial_status_of(a) != radial_status_of(b),
        a <= 4 ==> radial_status_of(a) != RadialStatus::ElevationStartVCPFinal,
        a > 4 ==> radial_status_of(a) == RadialStatus::ElevationStartVCPFinal,
        a > 4 && b > 4 ==> radial_status_of(a) == radial_status_of(b),
{
}

/// Code 1 stands for a spacing of one half degree and every other code for a
/// spacing of one degree.
pub proof fn law_azimuth_spacing_codes(code: u8)
    ensures
        code == 1 ==> azimuth_spacing_of(code).bits == ONE_HALF_BITS,
        code != 1 ==> azimuth_spacing_of(code).bits == ONE_BITS,
{
}

/// The value of a moment in one gate.
///
/// The two lowest codes are reserved and never stand for a number. Every
/// other sample is a number in fixed-point form: its physical value is the
/// raw sample less the offset, divided by the scale, with the scale and the
/// offset of the [`MomentData`] that it belongs to.
#[derive(Debug, Clone, Copy, PartialEq, Eq, Structural)]
pub enum MomentValue {
    /// A number, by its raw sample.
    Value(u16),
    /// The signal was below the threshold.
    BelowThreshold,
    /// The sample lies beyond the unambiguous range.
    RangeFolded,
}

/// The value that a raw sample stands for.
pub open spec fn moment_value_of(raw: u16) -> MomentValue {
    if raw == BELOW_THRESHOLD_CODE {
        MomentValue::BelowThreshold
    } else if raw == RANGE_FOLDED_CODE {
        MomentValue::RangeFolded
    } else {
        MomentValue::Value(raw)
    }
}

/// Computes [`moment_value_of`].
pub fn moment_value(raw: u16) -> (r: MomentValue)
    ensures
        r == moment_value_of(raw),
{
    if raw == BELOW_THRESHOLD_CODE {
        MomentValue::BelowThreshold
    } else if raw == RANGE_FOLDED_CODE {
        MomentValue::RangeFolded
    } else {
        MomentValue::Value(raw)
    }
}

/// The values of one moment along a radial, nearest to the radar first.
#[derive(Debug, Clone, PartialEq, Eq)]
pub struct MomentData {
    /// Scale of the fixed-point encoding; never zero.
    pub scale: Real4,
    /// Offset of the fixed-point encoding.
    pub offset: Real4,
    /// One value per gate.
    pub values: Vec<MomentValue>,
}

/// Moment data as a mathematical value.
pub struct MomentDataView {
    /// Scale of the fixed-point encoding.
    pub scale: Real4,
    /// Offset of the fixed-point encoding.
    pub offset: Real4,
    /// One value per gate.
    pub values: Seq<MomentValue>,
}

impl View for MomentData {
    type V = MomentDataView;

    open spec fn view(&self) -> MomentDataView {
        MomentDataView { scale: self.scale, offset: self.offset, values: self.values@ }
    }
}

/// What mapping raw samples with the given scale and offset gives: nothing
/// for a scale of zero, and else one value per sample, in the same order.
pub open spec fn fixed_point_result(scale: Real4, offset: Real4, raw_samples: Seq<u16>) -> Result<
    MomentDataView,
    Error,
> {
    if scale.is_zero() {
        Err(Error::InvalidScale)
    } else {
        Ok(
            MomentDataView {
                scale,
                offset,
                values: Seq::new(raw_samples.len(), |gate: int| moment_value_of(raw_samples[gate])),
            },
        )
    }
}

impl MomentData {
    /// Maps raw samples to moment values.
    ///
    /// A scale of zero is refused for the whole block, since no sample could
    /// be divided by it. Otherwise every sample gives one value: the reserved
    /// codes their markers, every other sample a number.
    pub fn from_fixed_point(scale: Real4, offset: Real4, raw_samples: &[u16]) -> (r: Result<
        MomentData,
        Error,
    >)
        ensures
            match r {
                Ok(data) => fixed_point_result(scale, offset, raw_samples@) == Ok::<
                    MomentDataView,
                    Error,
                >(data@),
                Err(e) => fixed_point_result(scale, offset, raw_samples@) == Err::<
                    MomentDataView,
                    Error,
                >(e),
            },
    {
        if scale.equals_zero() {
            return Err(Error::InvalidScale);
        }
        let mut values: Vec<MomentValue> = Vec::new();
        let mut gate: usize = 0;
        while gate < raw_samples.len()
            invariant
                gate <= raw_samples@.len(),
                values@ == Seq::new(gate as nat, |g: int| moment_value_of(raw_samples@[g])),
            decreases raw_samples@.len() - gate,
        {
            values.push(moment_value(raw_samples[gate]));
            gate = gate + 1;
        }
        Ok(MomentData { scale, offset, values })
    }
}

/// Mapping keeps the gates apart: on a scale other than zero there is one
/// value per sample, a reserved code never gives a number, and a number
/// always keeps the sample it came from.
pub proof fn law_fixed_point_values(scale: Real4, offset: Real4, raw_samples: Seq<u16>, gate: int)
    requires
        0 <= gate < raw_samples.len(),
    ensures
        scale.is_zero() <==> fixed_point_result(scale, offset, raw_samples) == Err::<
            MomentDataView,
            Error,
        >(Error::InvalidScale),
        fixed_point_result(scale, offset, raw_samples) matches Ok(data) ==> {
            &&& data.values.len() == raw_samples.len()
            &&& (raw_samples[gate] == 0 <==> data.values[gate] == MomentValue::BelowThreshold)
            &&& (raw_samples[gate] == 1 <==> data.values[gate] == MomentValue::RangeFolded)
            &&& (raw_samples[gate] >= 2 <==> data.values[gate] == MomentValue::Value(
                raw_samples[gate],
            ))
        },
{
}

/// The metadata of a radar site.
#[derive(Debug, Clone, Copy, PartialEq, Eq)]
pub struct Site {
    /// The four letters that identify the site.
    pub identifier: [u8; 4],
    /// Latitude in degrees.
    pub latitude: Real4,
    /// Longitude in degrees.
    pub longitude: Real4,
    /// Height of the site above sea level in meters.
    pub height_meters: i16,
    /// Height of the feedhorn above ground in meters.
    pub feedhorn_height_meters: u16,
}

/// One ray of the radar: an azimuth and an elevation at a point in time, with
/// the moments that were collected along it.
#[derive(Debug, Clone, PartialEq, Eq)]
pub struct Radial {
    /// Collection time in milliseconds.
    pub collection_timestamp: i64,
    /// Number of the radial within its elevation scan.
    pub azimuth_number: u16,
    /// Azimuth angle in degrees.
    pub azimuth_angle_degrees: Real4,
    /// Azimuthal spacing between adjacent radials in degrees.
    pub azimuth_spacing_degrees: Real4,
    /// Place of the radial within the scan.
    pub radial_status: RadialStatus,
    /// Number of the elevation within the volume scan.
    pub elevation_number: u8,
    /// Elevation angle in degrees.
    pub elevation_angle_degrees: Real4,
    /// Reflectivity, if the message carried it.
    pub reflectivity: Option<MomentData>,
    /// Velocity, if the message carried it.
    pub velocity: Option<MomentData>,
    /// Spectrum width, if the message carried it.
    pub spectrum_width: Option<MomentData>,
    /// Differential reflectivity, if the message carried it.
    pub differential_reflectivity: Option<MomentData>,
    /// Differential phase, if the message carried it.
    pub differential_phase: Option<MomentData>,
    /// Correlation coefficient, if the message carried it.
    pub correlation_coefficient: Option<MomentData>,
    /// Specific differential phase, if the message carried it.
    pub specific_differential_phase: Option<MomentData>,
}

/// A radial as a mathematical value.
pub struct RadialView {
    /// Collection time in milliseconds.
    pub collection_timestamp: i64,
    /// Number of the radial within its elevation scan.
    pub azimuth_number: u16,
    /// Azimuth angle in degrees.
    pub azimuth_angle_degrees: Real4,
    /// Azimuthal spacing between adjacent radials in degrees.
    pub azimuth_spacing_degrees: Real4,
    /// Place of the radial within the scan.
    pub radial_status: RadialStatus,
    /// Number of the elevation within the volume scan.
    pub elevation_number: u8,
    /// Elevation angle in degrees.
    pub elevation_angle_degrees: Real4,
    /// Reflectivity, if the message carried it.
    pub reflectivity: Option<MomentDataView>,
    /// Velocity, if the message carried it.
    pub velocity: Option<MomentDataView>,
    /// Spectrum width, if the message carried it.
    pub spectrum_width: Option<MomentDataView>,
    /// Differential reflectivity, if the message carried it.
    pub differential_reflectivity: Option<MomentDataView>,
    /// Differential phase, if the message carried it.
    pub differential_phase: Option<MomentDataView>,
    /// Correlation coefficient, if the message carried it.
    pub correlation_coefficient: Option<MomentDataView>,
    /// Specific differential phase, if the message carried it.
    pub specific_differential_phase: Option<MomentDataView>,
}

/// The mathematical value of moment data that may be absent.
pub open spec fn moment_view(data: Option<MomentData>) -> Option<MomentDataView> {
    match data {
        Some(data) => Some(data@),
        None => None,
    }
}

impl View for Radial {
    type V = RadialView;

    open spec fn view(&self) -> RadialView {
        RadialView {
            collection_timestamp: self.collection_timestamp,
            azimuth_number: self.azimuth_number,
            azimuth_angle_degrees: self.azimuth_angle_degrees,
            azimuth_spacing_degrees: self.azimuth_spacing_degrees,
            radial_status: self.radial_status,
            elevation_number: self.elevation_number,
            elevation_angle_degrees: self.elevation_angle_degrees,
            reflectivity: moment_view(self.reflectivity),
            velocity: moment_view(self.velocity),
            spectrum_width: moment_view(self.spectrum_width),
            differential_reflectivity: moment_view(self.differential_reflectivity),
            differential_phase: moment_view(self.differential_phase),
            correlation_coefficient: moment_view(self.correlation_coefficient),
            specific_differential_phase: moment_view(self.specific_differential_phase),
        }
    }
}

/// What decoding a digital radar data message at `start` into a radial gives:
/// the radial of the message that the bytes decode to.
pub open spec fn radial_result(s: Seq<u8>, start: int) -> Result<RadialView, Error> {
    match digital_radar_data_result(s, start) {
        Err(e) => Err(e),
        Ok(message) => message.radial(),
    }
}

/// Decodes a digital radar data message type 31 from the provided reader into
/// a radial.
///
/// On success the reader stands behind the message: it has moved by the
/// length that the message's header declares. On failure it stays in place.
pub fn decode_digital_radar_data(reader: &mut ByteReader) -> (r: Result<Radial, Error>)
    ensures
        match r {
            Ok(radial) => radial_result(old(reader).bytes(), old(reader).pos()) == Ok::<
                RadialView,
                Error,
            >(radial@),
            Err(e) => radial_result(old(reader).bytes(), old(reader).pos()) == Err::<
                RadialView,
                Error,
            >(e),
        },
        final(reader).bytes() == old(reader).bytes(),
        final(reader).pos() == old(reader).pos() + (if r is Ok {
            header_at(old(reader).bytes(), old(reader).pos()).radial_length as int
        } else {
            0int
        }),
{
    let start: usize = reader.position();
    proof {
        law_decoded_message_keeps_header(reader.bytes(), start as int);
    }
    let message = match crate::messages::digital_radar_data::decode_digital_radar_data(reader) {
        Ok(message) => message,
        Err(e) => {
            return Err(e);
        },
    };
    match message.radial() {
        Ok(radial) => Ok(radial),
        Err(e) => {
            reader.rewind(start);
            Err(e)
        },
    }
}

/// The radial is a function of the bytes from the reader's position on: two
/// buffers that hold the same bytes behind their positions give the same
/// radial, or fail alike.
pub proof fn law_radial_reads_the_rest_only(s1: Seq<u8>, at1: int, s2: Seq<u8>, at2: int)
    requires
        same_rest(s1, at1, s2, at2),
    ensures
        radial_result(s1, at1) == radial_result(s2, at2),
{
    law_decoding_reads_the_rest_only(s1, at1, s2, at2);
}

} // verus!
