//! The decoded digital radar data message and what is derived from it.

use crate::messages::digital_radar_data::constant_blocks::{
    ElevationDataBlock, RadialDataBlock, VolumeDataBlock,
};
use crate::messages::digital_radar_data::data_block_id::{BlockKind, Moment};
use crate::messages::digital_radar_data::generic_data_block::{
    GenericDataBlock, GenericDataBlockView,
};
use crate::messages::digital_radar_data::header::Header;
use crate::messages::message_header::MILLIS_PER_DAY;
use crate::model::{
    azimuth_spacing, azimuth_spacing_of, fixed_point_result, moment_view, radial_status,
    radial_status_of, MomentData, MomentDataView, Radial, RadialView, Site,
};
use crate::result::Error;
use vstd::prelude::*;

verus! {

/// The base data of a single radial: the fixed header and the data blocks
/// that the message carried. A block that the message did not carry is
/// absent, which is no error.
#[derive(Debug, Clone, PartialEq, Eq)]
pub struct Message {
    /// The decoded digital radar data header.
    pub header: Header,
    /// Volume data if included in the message.
    pub volume_data_block: Option<VolumeDataBlock>,
    /// Elevation data if included in the message.
    pub elevation_data_block: Option<ElevationDataBlock>,
    /// Radial data if included in the message.
    pub radial_data_block: Option<RadialDataBlock>,
    /// Reflectivity data if included in the message.
    pub reflectivity_data_block: Option<GenericDataBlock>,
    /// Velocity data if included in the message.
    pub velocity_data_block: Option<GenericDataBlock>,
    /// Spectrum width data if included in the message.
    pub spectrum_width_data_block: Option<GenericDataBlock>,
    /// Differential reflectivity data if included in the message.
    pub differential_reflectivity_data_block: Option<GenericDataBlock>,
    /// Differential phase data if included in the message.
    pub differential_phase_data_block: Option<GenericDataBlock>,
    /// Correlation coefficient data if included in the message.
    pub correlation_coefficient_data_block: Option<GenericDataBlock>,
    /// Specific differential phase data if included in the message.
    pub specific_diff_phase_data_block: Option<GenericDataBlock>,
}

/// A message as a mathematical value.
pub struct MessageView {
    /// The decoded digital radar data header.
    pub header: Header,
    /// Volume data if included in the message.
    pub volume_data_block: Option<VolumeDataBlock>,
    /// Elevation data if included in the message.
    pub elevation_data_block: Option<ElevationDataBlock>,
    /// Radial data if included in the message.
    pub radial_data_block: Option<RadialDataBlock>,
    /// Reflectivity data if included in the message.
    pub reflectivity_data_block: Option<GenericDataBlockView>,
    /// Velocity data if included in the message.
    pub velocity_data_block: Option<GenericDataBlockView>,
    /// Spectrum width data if included in the message.
    pub spectrum_width_data_block: Option<GenericDataBlockView>,
    /// Differential reflectivity data if included in the message.
    pub differential_reflectivity_data_block: Option<GenericDataBlockView>,
    /// Differential phase data if included in the message.
    pub differential_phase_data_block: Option<GenericDataBlockView>,
    /// Correlation coefficient data if included in the message.
    pub correlation_coefficient_data_block: Option<GenericDataBlockView>,
    /// Specific differential phase data if included in the message.
    pub specific_diff_phase_data_block: Option<GenericDataBlockView>,
}

/// A data block of any kind, as the decoder meets it.
#[derive(Debug, Clone, PartialEq, Eq)]
pub enum DataBlock {
    /// Volume data.
    Volume(VolumeDataBlock),
    /// Elevation data.
    Elevation(ElevationDataBlock),
    /// Radial data.
    Radial(RadialDataBlock),
    /// The samples of the named moment.
    Moment(Moment, GenericDataBlock),
    /// A block of a kind that this crate does not know, stepped over by the
    /// size that it declares.
    Skipped,
}

/// A data block as a mathematical value.
pub enum DataBlockView {
    /// Volume data.
    Volume(VolumeDataBlock),
    /// Elevation data.
    Elevation(ElevationDataBlock),
    /// Radial data.
    Radial(RadialDataBlock),
    /// The samples of the named moment.
    Moment(Moment, GenericDataBlockView),
    /// A block of a kind that this crate does not know.
    Skipped,
}

impl View for DataBlock {
    type V = DataBlockView;

    open spec fn view(&self) -> DataBlockView {
        match *self {
            DataBlock::Volume(block) => DataBlockView::Volume(block),
            DataBlock::Elevation(block) => DataBlockView::Elevation(block),
            DataBlock::Radial(block) => DataBlockView::Radial(block),
            DataBlock::Moment(moment, block) => DataBlockView::Moment(moment, block@),
            DataBlock::Skipped => DataBlockView::Skipped,
        }
    }
}

impl DataBlockView {
    /// The kind of the block. A block that was stepped over is of unknown
    /// kind.
    pub open spec fn kind(self) -> BlockKind {
        match self {
            DataBlockView::Volume(_) => BlockKind::Volume,
            DataBlockView::Elevation(_) => BlockKind::Elevation,
            DataBlockView::Radial(_) => BlockKind::Radial,
            DataBlockView::Moment(moment, _) => BlockKind::Moment(moment),
            DataBlockView::Skipped => BlockKind::Unknown,
        }
    }
}

/// The mathematical value of a moment data block that may be absent.
pub open spec fn block_view(block: Option<GenericDataBlock>) -> Option<GenericDataBlockView> {
    match block {
        Some(block) => Some(block@),
        None => None,
    }
}

impl View for Message {
    type V = MessageView;

    open spec fn view(&self) -> MessageView {
        MessageView {
            header: self.header,
            volume_data_block: self.volume_data_block,
            elevation_data_block: self.elevation_data_block,
            radial_data_block: self.radial_data_block,
            reflectivity_data_block: block_view(self.reflectivity_data_block),
            velocity_data_block: block_view(self.velocity_data_block),
            spectrum_width_data_block: block_view(self.spectrum_width_data_block),
            differential_reflectivity_data_block: block_view(
                self.differential_reflectivity_data_block,
            ),
            differential_phase_data_block: block_view(self.differential_phase_data_block),
            correlation_coefficient_data_block: block_view(self.correlation_coefficient_data_block),
            specific_diff_phase_data_block: block_view(self.specific_diff_phase_data_block),
        }
    }
}

/// What mapping a moment data block that may be absent gives: nothing for an
/// absent block, and for a block its samples mapped with its own scale and
/// offset.
pub open spec fn moment_result(block: Option<GenericDataBlockView>) -> Result<
    Option<MomentDataView>,
    Error,
> {
    match block {
        None => Ok(None),
        Some(block) => match fixed_point_result(
            block.header.scale,
            block.header.offset,
            block.samples,
        ) {
            Ok(data) => Ok(Some(data)),
            Err(e) => Err(e),
        },
    }
}

impl MessageView {
    /// The message with the given header and no data block.
    pub open spec fn empty(header: Header) -> MessageView {
        MessageView {
            header,
            volume_data_block: None,
            elevation_data_block: None,
            radial_data_block: None,
            reflectivity_data_block: None,
            velocity_data_block: None,
            spectrum_width_data_block: None,
            differential_reflectivity_data_block: None,
            differential_phase_data_block: None,
            correlation_coefficient_data_block: None,
            specific_diff_phase_data_block: None,
        }
    }

    /// The message with `block` in the place of its kind. A block that was
    /// stepped over changes nothing.
    pub open spec fn with_block(self, block: DataBlockView) -> MessageView {
        match block {
            DataBlockView::Volume(b) => MessageView { volume_data_block: Some(b), ..self },
            DataBlockView::Elevation(b) => MessageView { elevation_data_block: Some(b), ..self },
            DataBlockView::Radial(b) => MessageView { radial_data_block: Some(b), ..self },
            DataBlockView::Moment(Moment::Reflectivity, b) => MessageView {
                reflectivity_data_block: Some(b),
                ..self
            },
            DataBlockView::Moment(Moment::Velocity, b) => MessageView {
                velocity_data_block: Some(b),
                ..self
            },
            DataBlockView::Moment(Moment::SpectrumWidth, b) => MessageView {
                spectrum_width_data_block: Some(b),
                ..self
            },
            DataBlockView::Moment(Moment::DifferentialReflectivity, b) => MessageView {
                differential_reflectivity_data_block: Some(b),
                ..self
            },
            DataBlockView::Moment(Moment::DifferentialPhase, b) => MessageView {
                differential_phase_data_block: Some(b),
                ..self
            },
            DataBlockView::Moment(Moment::CorrelationCoefficient, b) => MessageView {
                correlation_coefficient_data_block: Some(b),
                ..self
            },
            DataBlockView::Moment(Moment::SpecificDiffPhase, b) => MessageView {
                specific_diff_phase_data_block: Some(b),
                ..self
            },
            DataBlockView::Skipped => self,
        }
    }

    /// The block of the given moment, if the message carries it.
    pub open spec fn moment(self, moment: Moment) -> Option<GenericDataBlockView> {
        match moment {
            Moment::Reflectivity => self.reflectivity_data_block,
            Moment::Velocity => self.velocity_data_block,
            Moment::SpectrumWidth => self.spectrum_width_data_block,
            Moment::DifferentialReflectivity => self.differential_reflectivity_data_block,
            Moment::DifferentialPhase => self.differential_phase_data_block,
            Moment::CorrelationCoefficient => self.correlation_coefficient_data_block,
            Moment::SpecificDiffPhase => self.specific_diff_phase_data_block,
        }
    }

    /// The block in the place of the given kind, if the message carries one.
    /// There is no place for blocks of unknown kind.
    pub open spec fn block(self, kind: BlockKind) -> Option<DataBlockView> {
        match kind {
            BlockKind::Volume => match self.volume_data_block {
                Some(block) => Some(DataBlockView::Volume(block)),
                None => None,
            },
            BlockKind::Elevation => match self.elevation_data_block {
                Some(block) => Some(DataBlockView::Elevation(block)),
                None => None,
            },
            BlockKind::Radial => match self.radial_data_block {
                Some(block) => Some(DataBlockView::Radial(block)),
                None => None,
            },
            BlockKind::Moment(moment) => match self.moment(moment) {
                Some(block) => Some(DataBlockView::Moment(moment, block)),
                None => None,
            },
            BlockKind::Unknown => None,
        }
    }

    /// The site's metadata: the radar's letters from the header and the
    /// position from the volume data, where the message carries volume data.
    pub open spec fn site(self) -> Option<Site> {
        match self.volume_data_block {
            Some(block) => Some(
                Site {
                    identifier: self.header.radar_identifier,
                    latitude: block.latitude,
                    longitude: block.longitude,
                    height_meters: block.site_height,
                    feedhorn_height_meters: block.feedhorn_height,
                },
            ),
            None => None,
        }
    }

    /// The collection time in milliseconds: the days of the header's date
    /// and the milliseconds of its time.
    pub open spec fn collection_timestamp(self) -> int {
        self.header.date * MILLIS_PER_DAY + self.header.time
    }

    /// Whether some moment of the message has a scale of zero.
    pub open spec fn has_zero_scale(self) -> bool {
        exists|moment: Moment|
            (#[trigger] self.moment(moment)) matches Some(block) && block.header.scale.is_zero()
    }

    /// The radial that the message describes. There is none where a moment
    /// has a scale of zero.
    pub open spec fn radial(self) -> Result<RadialView, Error> {
        if self.has_zero_scale() {
            Err(Error::InvalidScale)
        } else {
            Ok(
                RadialView {
                    collection_timestamp: self.collection_timestamp() as i64,
                    azimuth_number: self.header.azimuth_number,
                    azimuth_angle_degrees: self.header.azimuth_angle,
                    azimuth_spacing_degrees: azimuth_spacing_of(
                        self.header.azimuth_resolution_spacing,
                    ),
                    radial_status: radial_status_of(self.header.radial_status),
                    elevation_number: self.header.elevation_number,
                    elevation_angle_degrees: self.header.elevation_angle,
                    reflectivity: moment_result(self.reflectivity_data_block)->Ok_0,
                    velocity: moment_result(self.velocity_data_block)->Ok_0,
                    spectrum_width: moment_result(self.spectrum_width_data_block)->Ok_0,
                    differential_reflectivity: moment_result(
                        self.differential_reflectivity_data_block,
                    )->Ok_0,
                    differential_phase: moment_result(self.differential_phase_data_block)->Ok_0,
                    correlation_coefficient: moment_result(
                        self.correlation_coefficient_data_block,
                    )->Ok_0,
                    specific_differential_phase: moment_result(
                        self.specific_diff_phase_data_block,
                    )->Ok_0,
                },
            )
        }
    }
}

impl GenericDataBlock {
    /// The values of the block's moment: its samples mapped with its own
    /// scale and offset.
    pub fn moment_data(&self) -> (r: Result<MomentData, Error>)
        ensures
            match r {
                Ok(data) => fixed_point_result(self.header.scale, self.header.offset, self.samples@)
                    == Ok::<MomentDataView, Error>(data@),
                Err(e) => fixed_point_result(self.header.scale, self.header.offset, self.samples@)
                    == Err::<MomentDataView, Error>(e),
            },
    {
        MomentData::from_fixed_point(
            self.header.scale,
            self.header.offset,
            self.samples.as_slice(),
        )
    }
}

/// Maps a moment data block that may be absent.
fn map_data_block(block: &Option<GenericDataBlock>) -> (r: Result<Option<MomentData>, Error>)
    ensures
        match r {
            Ok(data) => moment_result(block_view(*block)) == Ok::<Option<MomentDataView>, Error>(
                moment_view(data),
            ),
            Err(e) => e == Error::InvalidScale && moment_result(block_view(*block)) == Err::<
                Option<MomentDataView>,
                Error,
            >(e),
        },
        r is Err <==> (block_view(*block) matches Some(b) && b.header.scale.is_zero()),
{
    match block {
        None => Ok(None),
        Some(block) => {
            match block.moment_data() {
                Ok(data) => Ok(Some(data)),
                Err(e) => Err(e),
            }
        },
    }
}

impl Message {
    /// Create a new digital radar data message with the decoded header and
    /// every data block absent.
    pub fn new(header: Header) -> (r: Self)
        ensures
            r@ == MessageView::empty(header),
    {
        Message {
            header,
            volume_data_block: None,
            elevation_data_block: None,
            radial_data_block: None,
            reflectivity_data_block: None,
            velocity_data_block: None,
            spectrum_width_data_block: None,
            differential_reflectivity_data_block: None,
            differential_phase_data_block: None,
            correlation_coefficient_data_block: None,
            specific_diff_phase_data_block: None,
        }
    }

    /// Puts `block` in the place of its kind, over a block of the same kind
    /// that may be there.
    pub fn place(&mut self, block: DataBlock)
        ensures
            final(self)@ == old(self)@.with_block(block@),
    {
        match block {
            DataBlock::Volume(b) => {
                self.volume_data_block = Some(b);
            },
            DataBlock::Elevation(b) => {
                self.elevation_data_block = Some(b);
            },
            DataBlock::Radial(b) => {
                self.radial_data_block = Some(b);
            },
            DataBlock::Moment(Moment::Reflectivity, b) => {
                self.reflectivity_data_block = Some(b);
            },
            DataBlock::Moment(Moment::Velocity, b) => {
                self.velocity_data_block = Some(b);
            },
            DataBlock::Moment(Moment::SpectrumWidth, b) => {
                self.spectrum_width_data_block = Some(b);
            },
            DataBlock::Moment(Moment::DifferentialReflectivity, b) => {
                self.differential_reflectivity_data_block = Some(b);
            },
            DataBlock::Moment(Moment::DifferentialPhase, b) => {
                self.differential_phase_data_block = Some(b);
            },
            DataBlock::Moment(Moment::CorrelationCoefficient, b) => {
                self.correlation_coefficient_data_block = Some(b);
            },
            DataBlock::Moment(Moment::SpecificDiffPhase, b) => {
                self.specific_diff_phase_data_block = Some(b);
            },
            DataBlock::Skipped => {},
        }
    }

    /// The radar site's metadata if included on this message.
    pub fn site_metadata(&self) -> (r: Option<Site>)
        ensures
            r == self@.site(),
    {
        match &self.volume_data_block {
            Some(block) => Some(
                Site {
                    identifier: self.header.radar_identifier,
                    latitude: block.latitude,
                    longitude: block.longitude,
                    height_meters: block.site_height,
                    feedhorn_height_meters: block.feedhorn_height,
                },
            ),
            None => None,
        }
    }

    /// Maps this message into a common model radial.
    ///
    /// The header gives the scalars, with the spacing and status codes
    /// resolved, and every moment data block gives the values of its moment.
    /// A moment with a scale of zero makes the whole mapping fail with
    /// [`Error::InvalidScale`]; nothing else can fail.
    pub fn radial(&self) -> (r: Result<Radial, Error>)
        ensures
            match r {
                Ok(radial) => self@.radial() == Ok::<RadialView, Error>(radial@),
                Err(e) => self@.radial() == Err::<RadialView, Error>(e),
            },
    {
        let reflectivity = match map_data_block(&self.reflectivity_data_block) {
            Ok(data) => data,
            Err(e) => {
                assert(self@.moment(Moment::Reflectivity) is Some);
                return Err(e);
            },
        };
        let velocity = match map_data_block(&self.velocity_data_block) {
            Ok(data) => data,
            Err(e) => {
                assert(self@.moment(Moment::Velocity) is Some);
                return Err(e);
            },
        };
        let spectrum_width = match map_data_block(&self.spectrum_width_data_block) {
            Ok(data) => data,
            Err(e) => {
                assert(self@.moment(Moment::SpectrumWidth) is Some);
                return Err(e);
            },
        };
        let differential_reflectivity = match map_data_block(
            &self.differential_reflectivity_data_block,
        ) {
            Ok(data) => data,
            Err(e) => {
                assert(self@.moment(Moment::DifferentialReflectivity) is Some);
                return Err(e);
            },
        };
        let differential_phase = match map_data_block(&self.differential_phase_data_block) {
            Ok(data) => data,
            Err(e) => {
                assert(self@.moment(Moment::DifferentialPhase) is Some);
                return Err(e);
            },
        };
        let correlation_coefficient = match map_data_block(
            &self.correlation_coefficient_data_block,
        ) {
            Ok(data) => data,
            Err(e) => {
                assert(self@.moment(Moment::CorrelationCoefficient) is Some);
                return Err(e);
            },
        };
        let specific_differential_phase = match map_data_block(
            &self.specific_diff_phase_data_block,
        ) {
            Ok(data) => data,
            Err(e) => {
                assert(self@.moment(Moment::SpecificDiffPhase) is Some);
                return Err(e);
            },
        };
        let days: i64 = self.header.date as i64;
        let millis: i64 = self.header.time as i64;
        assert(!self@.has_zero_scale()) by {
            assert forall|moment: Moment|
                !((#[trigger] self@.moment(moment)) matches Some(block)
                    && block.header.scale.is_zero()) by {
                match moment {
                    Moment::Reflectivity => {},
                    Moment::Velocity => {},
                    Moment::SpectrumWidth => {},
                    Moment::DifferentialReflectivity => {},
                    Moment::DifferentialPhase => {},
                    Moment::CorrelationCoefficient => {},
                    Moment::SpecificDiffPhase => {},
                }
            }
        }
        Ok(
            Radial {
                collection_timestamp: days * MILLIS_PER_DAY + millis,
                azimuth_number: self.header.azimuth_number,
                azimuth_angle_degrees: self.header.azimuth_angle,
                azimuth_spacing_degrees: azimuth_spacing(self.header.azimuth_resolution_spacing),
                radial_status: radial_status(self.header.radial_status),
                elevation_number: self.header.elevation_number,
                elevation_angle_degrees: self.header.elevation_angle,
                reflectivity,
                velocity,
                spectrum_width,
                differential_reflectivity,
                differential_phase,
                correlation_coefficient,
                specific_differential_phase,
            },
        )
    }
}

} // verus!
