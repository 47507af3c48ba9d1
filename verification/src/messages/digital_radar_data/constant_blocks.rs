//! The three blocks of constants: volume, elevation and radial data.

use crate::bytes::{be_i16, be_real4, be_u16, in_bounds, ByteReader};
use crate::messages::digital_radar_data::data_block_id::{data_block_id_at, DataBlockId};
use crate::real4::Real4;
use vstd::prelude::*;

verus! {

/// The width of the volume data block.
pub const VOLUME_BLOCK_SIZE: usize = 44;

/// The width of the elevation data block.
pub const ELEVATION_BLOCK_SIZE: usize = 12;

/// The width of the radial data block.
pub const RADIAL_BLOCK_SIZE: usize = 28;

/// Site metadata and the calibration constants of a volume scan.
#[derive(Debug, Clone, Copy, PartialEq, Eq)]
pub struct VolumeDataBlock {
    /// The tag of the block.
    pub data_block_id: DataBlockId,
    /// Size of the block in bytes.
    pub lrtup: u16,
    /// Major version number.
    pub major_version_number: u8,
    /// Minor version number.
    pub minor_version_number: u8,
    /// Latitude of the site in degrees.
    pub latitude: Real4,
    /// Longitude of the site in degrees.
    pub longitude: Real4,
    /// Height of the site above sea level in meters.
    pub site_height: i16,
    /// Height of the feedhorn above ground in meters.
    pub feedhorn_height: u16,
    /// Reflectivity scaling factor without correction.
    pub calibration_constant: Real4,
    /// Transmitter power of the horizontal channel.
    pub horizontal_shv_tx_power: Real4,
    /// Transmitter power of the vertical channel.
    pub vertical_shv_tx_power: Real4,
    /// Calibration of the system's differential reflectivity.
    pub system_differential_reflectivity: Real4,
    /// Initial differential phase of the system.
    pub initial_system_differential_phase: Real4,
    /// Number of the volume coverage pattern.
    pub volume_coverage_pattern_number: u16,
    /// Processing option flags.
    pub processing_status: u16,
}

/// The calibration of one elevation.
#[derive(Debug, Clone, Copy, PartialEq, Eq)]
pub struct ElevationDataBlock {
    /// The tag of the block.
    pub data_block_id: DataBlockId,
    /// Size of the block in bytes.
    pub lrtup: u16,
    /// Atmospheric attenuation factor.
    pub atmos: i16,
    /// Scaling constant used to calculate reflectivity.
    pub calibration_constant: Real4,
}

/// The constants of one radial.
#[derive(Debug, Clone, Copy, PartialEq, Eq)]
pub struct RadialDataBlock {
    /// The tag of the block.
    pub data_block_id: DataBlockId,
    /// Size of the block in bytes.
    pub lrtup: u16,
    /// Unambiguous range, in tenths of a kilometer.
    pub unambiguous_range: u16,
    /// Noise level of the horizontal channel.
    pub horizontal_channel_noise_level: Real4,
    /// Noise level of the vertical channel.
    pub vertical_channel_noise_level: Real4,
    /// Nyquist velocity, in hundredths of a meter per second.
    pub nyquist_velocity: u16,
    /// Flags of the radial.
    pub radial_flags: u16,
    /// Calibration constant of the horizontal channel.
    pub horizontal_channel_calibration_constant: Real4,
    /// Calibration constant of the vertical channel.
    pub vertical_channel_calibration_constant: Real4,
}

/// The volume data block whose tag starts at `at`.
pub open spec fn volume_block_at(s: Seq<u8>, at: int) -> VolumeDataBlock {
    VolumeDataBlock {
        data_block_id: data_block_id_at(s, at),
        lrtup: be_u16(s, at + 4),
        major_version_number: s[at + 6],
        minor_version_number: s[at + 7],
        latitude: be_real4(s, at + 8),
        longitude: be_real4(s, at + 12),
        site_height: be_i16(s, at + 16),
        feedhorn_height: be_u16(s, at + 18),
        calibration_constant: be_real4(s, at + 20),
        horizontal_shv_tx_power: be_real4(s, at + 24),
        vertical_shv_tx_power: be_real4(s, at + 28),
        system_differential_reflectivity: be_real4(s, at + 32),
        initial_system_differential_phase: be_real4(s, at + 36),
        volume_coverage_pattern_number: be_u16(s, at + 40),
        processing_status: be_u16(s, at + 42),
    }
}

/// The elevation data block whose tag starts at `at`.
pub open spec fn elevation_block_at(s: Seq<u8>, at: int) -> ElevationDataBlock {
    ElevationDataBlock {
        data_block_id: data_block_id_at(s, at),
        lrtup: be_u16(s, at + 4),
        atmos: be_i16(s, at + 6),
        calibration_constant: be_real4(s, at + 8),
    }
}

/// The radial data block whose tag starts at `at`.
pub open spec fn radial_block_at(s: Seq<u8>, at: int) -> RadialDataBlock {
    RadialDataBlock {
        data_block_id: data_block_id_at(s, at),
        lrtup: be_u16(s, at + 4),
        unambiguous_range: be_u16(s, at + 6),
        horizontal_channel_noise_level: be_real4(s, at + 8),
        vertical_channel_noise_level: be_real4(s, at + 12),
        nyquist_velocity: be_u16(s, at + 16),
        radial_flags: be_u16(s, at + 18),
        horizontal_channel_calibration_constant: be_real4(s, at + 20),
        vertical_channel_calibration_constant: be_real4(s, at + 24),
    }
}

impl VolumeDataBlock {
    /// The block, read at `at` where all of it is known to be there.
    pub(crate) fn read_at(reader: &ByteReader, at: usize) -> (r: VolumeDataBlock)
        requires
            in_bounds(reader.bytes(), at as int, VOLUME_BLOCK_SIZE as int),
        ensures
            r == volume_block_at(reader.bytes(), at as int),
    {
        let _total: usize = reader.len();
        VolumeDataBlock {
            data_block_id: DataBlockId::read_at(reader, at),
            lrtup: reader.u16_at(at + 4),
            major_version_number: reader.u8_at(at + 6),
            minor_version_number: reader.u8_at(at + 7),
            latitude: reader.real4_at(at + 8),
            longitude: reader.real4_at(at + 12),
            site_height: reader.i16_at(at + 16),
            feedhorn_height: reader.u16_at(at + 18),
            calibration_constant: reader.real4_at(at + 20),
            horizontal_shv_tx_power: reader.real4_at(at + 24),
            vertical_shv_tx_power: reader.real4_at(at + 28),
            system_differential_reflectivity: reader.real4_at(at + 32),
            initial_system_differential_phase: reader.real4_at(at + 36),
            volume_coverage_pattern_number: reader.u16_at(at + 40),
            processing_status: reader.u16_at(at + 42),
        }
    }
}

impl ElevationDataBlock {
    /// The block, read at `at` where all of it is known to be there.
    pub(crate) fn read_at(reader: &ByteReader, at: usize) -> (r: ElevationDataBlock)
        requires
            in_bounds(reader.bytes(), at as int, ELEVATION_BLOCK_SIZE as int),
        ensures
            r == elevation_block_at(reader.bytes(), at as int),
    {
        let _total: usize = reader.len();
        ElevationDataBlock {
            data_block_id: DataBlockId::read_at(reader, at),
            lrtup: reader.u16_at(at + 4),
            atmos: reader.i16_at(at + 6),
            calibration_constant: reader.real4_at(at + 8),
        }
    }
}

impl RadialDataBlock {
    /// The block, read at `at` where all of it is known to be there.
    pub(crate) fn read_at(reader: &ByteReader, at: usize) -> (r: RadialDataBlock)
        requires
            in_bounds(reader.bytes(), at as int, RADIAL_BLOCK_SIZE as int),
        ensures
            r == radial_block_at(reader.bytes(), at as int),
    {
        let _total: usize = reader.len();
        RadialDataBlock {
            data_block_id: DataBlockId::read_at(reader, at),
            lrtup: reader.u16_at(at + 4),
            unambiguous_range: reader.u16_at(at + 6),
            horizontal_channel_noise_level: reader.real4_at(at + 8),
            vertical_channel_noise_level: reader.real4_at(at + 12),
            nyquist_velocity: reader.u16_at(at + 16),
            radial_flags: reader.u16_at(at + 18),
            horizontal_channel_calibration_constant: reader.real4_at(at + 20),
            vertical_channel_calibration_constant: reader.real4_at(at + 24),
        }
    }
}

} // verus!
