use nexrad::bytes::ByteReader;
use nexrad::message::digital_radar_data;
use nexrad::messages::digital_radar_data::{
    DataBlockId, GenericDataBlock, GenericDataBlockHeader, Header, Message, VolumeDataBlock,
};
use nexrad::model::{
    azimuth_spacing, decode_digital_radar_data, moment_value, radial_status, MomentData,
    MomentValue, Radial, RadialStatus, Site,
};
use nexrad::real4::Real4;
use nexrad::Error;

fn bits_of(value: f32) -> Real4 {
    Real4 { bits: value.to_bits() }
}

/// The physical value of a sample, as the fixed-point encoding defines it.
fn physical(data: &MomentData, gate: usize) -> Option<f32> {
    match data.values[gate] {
        MomentValue::Value(raw) => {
            Some((raw as f32 - f32::from_bits(data.offset.bits)) / f32::from_bits(data.scale.bits))
        }
        _ => None,
    }
}

fn plain_header() -> Header {
    Header {
        radar_identifier: *b"KOKX",
        time: 43_200_000,
        date: 2,
        azimuth_number: 7,
        azimuth_angle: bits_of(3.5),
        compression_indicator: 0,
        spare: 0,
        radial_length: 32,
        azimuth_resolution_spacing: 1,
        radial_status: 0,
        elevation_number: 2,
        cut_sector_number: 0,
        elevation_angle: bits_of(1.25),
        radial_spot_blanking_status: 0,
        azimuth_indexing_mode: 0,
        data_block_count: 0,
    }
}

fn moment_block(scale: f32, offset: f32, samples: &[u16]) -> GenericDataBlock {
    GenericDataBlock {
        header: GenericDataBlockHeader {
            data_block_id: DataBlockId { data_block_type: b'D', data_name: *b"REF" },
            reserved: 0,
            number_of_data_moment_gates: samples.len() as u16,
            data_moment_range: 0,
            data_moment_range_sample_interval: 250,
            tover: 0,
            snr_threshold: 0,
            control_flags: 0,
            data_word_size: 8,
            scale: bits_of(scale),
            offset: bits_of(offset),
        },
        samples: samples.to_vec(),
    }
}

#[test]
fn radial_status_codes_map_to_six_outcomes() {
    assert_eq!(radial_status(0), RadialStatus::ElevationStart);
    assert_eq!(radial_status(1), RadialStatus::IntermediateRadialData);
    assert_eq!(radial_status(2), RadialStatus::ElevationEnd);
    assert_eq!(radial_status(3), RadialStatus::VolumeScanStart);
    assert_eq!(radial_status(4), RadialStatus::VolumeScanEnd);
    for code in 5..=u8::MAX {
        assert_eq!(radial_status(code), RadialStatus::ElevationStartVCPFinal);
    }
    for a in 0..=4u8 {
        assert_ne!(radial_status(a), RadialStatus::ElevationStartVCPFinal);
        for b in 0..a {
            assert_ne!(radial_status(a), radial_status(b));
        }
    }
}

#[test]
fn azimuth_spacing_is_half_a_degree_for_code_one_only() {
    assert_eq!(f32::from_bits(azimuth_spacing(1).bits), 0.5);
    assert_eq!(f32::from_bits(azimuth_spacing(2).bits), 1.0);
    assert_eq!(f32::from_bits(azimuth_spacing(0).bits), 1.0);
    assert_eq!(f32::from_bits(azimuth_spacing(255).bits), 1.0);
    for code in 0..=u8::MAX {
        let expected: f32 = if code == 1 { 0.5 } else { 1.0 };
        assert_eq!(azimuth_spacing(code), bits_of(expected));
    }
}

#[test]
fn reserved_codes_become_markers() {
    assert_eq!(moment_value(0), MomentValue::BelowThreshold);
    assert_eq!(moment_value(1), MomentValue::RangeFolded);
    assert_eq!(moment_value(2), MomentValue::Value(2));
    assert_eq!(moment_value(66), MomentValue::Value(66));
    assert_eq!(moment_value(u16::MAX), MomentValue::Value(u16::MAX));
}

#[test]
fn fixed_point_maps_every_sample() {
    let data =
        MomentData::from_fixed_point(bits_of(2.0), bits_of(64.0), &[66, 0, 1, 64, 255]).unwrap();
    assert_eq!(data.scale, bits_of(2.0));
    assert_eq!(data.offset, bits_of(64.0));
    assert_eq!(
        data.values,
        vec![
            MomentValue::Value(66),
            MomentValue::BelowThreshold,
            MomentValue::RangeFolded,
            MomentValue::Value(64),
            MomentValue::Value(255),
        ]
    );
    assert_eq!(physical(&data, 0), Some(1.0));
    assert_eq!(physical(&data, 1), None);
    assert_eq!(physical(&data, 2), None);
    assert_eq!(physical(&data, 3), Some(0.0));
    assert_eq!(physical(&data, 4), Some(95.5));
}

#[test]
fn fixed_point_of_no_samples_is_empty() {
    let data = MomentData::from_fixed_point(bits_of(2.0), bits_of(64.0), &[]).unwrap();
    assert_eq!(data.values, vec![]);
}

#[test]
fn scale_of_zero_is_refused() {
    assert_eq!(
        MomentData::from_fixed_point(bits_of(0.0), bits_of(64.0), &[66]),
        Err(Error::InvalidScale)
    );
    assert_eq!(
        MomentData::from_fixed_point(bits_of(-0.0), bits_of(64.0), &[66]),
        Err(Error::InvalidScale)
    );
    assert_eq!(
        MomentData::from_fixed_point(bits_of(0.0), bits_of(0.0), &[]),
        Err(Error::InvalidScale)
    );
    assert!(MomentData::from_fixed_point(bits_of(f32::MIN_POSITIVE), bits_of(0.0), &[5]).is_ok());
    assert!(MomentData::from_fixed_point(bits_of(-1.0), bits_of(0.0), &[5]).is_ok());
}

#[test]
fn radial_takes_scalars_from_the_header() {
    let message = Message::new(plain_header());
    let radial = message.radial().unwrap();
    assert_eq!(
        radial,
        Radial {
            collection_timestamp: 2 * 86_400_000 + 43_200_000,
            azimuth_number: 7,
            azimuth_angle_degrees: bits_of(3.5),
            azimuth_spacing_degrees: bits_of(0.5),
            radial_status: RadialStatus::ElevationStart,
            elevation_number: 2,
            elevation_angle_degrees: bits_of(1.25),
            reflectivity: None,
            velocity: None,
            spectrum_width: None,
            differential_reflectivity: None,
            differential_phase: None,
            correlation_coefficient: None,
            specific_differential_phase: None,
        }
    );
}

#[test]
fn radial_timestamp_does_not_overflow() {
    let mut header = plain_header();
    header.date = u16::MAX;
    header.time = u32::MAX;
    header.radial_status = 200;
    header.azimuth_resolution_spacing = 2;
    let radial = Message::new(header).radial().unwrap();
    assert_eq!(radial.collection_timestamp, 65_535i64 * 86_400_000 + 4_294_967_295);
    assert_eq!(radial.radial_status, RadialStatus::ElevationStartVCPFinal);
    assert_eq!(radial.azimuth_spacing_degrees, bits_of(1.0));
}

#[test]
fn radial_maps_each_moment_with_its_own_scale() {
    let mut message = Message::new(plain_header());
    message.reflectivity_data_block = Some(moment_block(2.0, 66.0, &[0, 1, 68]));
    message.velocity_data_block = Some(moment_block(0.5, 129.0, &[130]));
    message.spectrum_width_data_block = Some(moment_block(1.0, 0.0, &[]));
    message.differential_reflectivity_data_block = Some(moment_block(4.0, 2.0, &[2]));
    message.differential_phase_data_block = Some(moment_block(8.0, 3.0, &[3]));
    message.correlation_coefficient_data_block = Some(moment_block(16.0, 4.0, &[4]));
    message.specific_diff_phase_data_block = Some(moment_block(32.0, 5.0, &[5]));
    let radial = message.radial().unwrap();
    let reflectivity = radial.reflectivity.unwrap();
    assert_eq!(
        reflectivity.values,
        vec![MomentValue::BelowThreshold, MomentValue::RangeFolded, MomentValue::Value(68)]
    );
    assert_eq!(physical(&reflectivity, 2), Some(1.0));
    let velocity = radial.velocity.unwrap();
    assert_eq!(physical(&velocity, 0), Some(2.0));
    assert_eq!(radial.spectrum_width.unwrap().values, vec![]);
    assert_eq!(radial.differential_reflectivity.unwrap().scale, bits_of(4.0));
    assert_eq!(radial.differential_phase.unwrap().scale, bits_of(8.0));
    assert_eq!(radial.correlation_coefficient.unwrap().scale, bits_of(16.0));
    assert_eq!(radial.specific_differential_phase.unwrap().offset, bits_of(5.0));
}

#[test]
fn radial_fails_on_any_moment_with_scale_zero() {
    let good = moment_block(2.0, 66.0, &[68]);
    let bad = moment_block(0.0, 66.0, &[68]);
    for place in 0..7 {
        let mut message = Message::new(plain_header());
        message.reflectivity_data_block = Some(good.clone());
        match place {
            0 => message.reflectivity_data_block = Some(bad.clone()),
            1 => message.velocity_data_block = Some(bad.clone()),
            2 => message.spectrum_width_data_block = Some(bad.clone()),
            3 => message.differential_reflectivity_data_block = Some(bad.clone()),
            4 => message.differential_phase_data_block = Some(bad.clone()),
            5 => message.correlation_coefficient_data_block = Some(bad.clone()),
            _ => message.specific_diff_phase_data_block = Some(bad.clone()),
        }
        assert_eq!(message.radial(), Err(Error::InvalidScale), "place {}", place);
    }
}

#[test]
fn site_metadata_needs_volume_data() {
    let mut message = Message::new(plain_header());
    assert_eq!(message.site_metadata(), None);
    message.volume_data_block = Some(VolumeDataBlock {
        data_block_id: DataBlockId { data_block_type: b'R', data_name: *b"VOL" },
        lrtup: 44,
        major_version_number: 1,
        minor_version_number: 0,
        latitude: bits_of(40.8655),
        longitude: bits_of(-72.8638),
        site_height: -5,
        feedhorn_height: 30,
        calibration_constant: bits_of(0.0),
        horizontal_shv_tx_power: bits_of(0.0),
        vertical_shv_tx_power: bits_of(0.0),
        system_differential_reflectivity: bits_of(0.0),
        initial_system_differential_phase: bits_of(0.0),
        volume_coverage_pattern_number: 35,
        processing_status: 0,
    });
    assert_eq!(
        message.site_metadata(),
        Some(Site {
            identifier: *b"KOKX",
            latitude: bits_of(40.8655),
            longitude: bits_of(-72.8638),
            height_meters: -5,
            feedhorn_height_meters: 30,
        })
    );
}

/// A message with one reflectivity block of the given scale and samples.
fn encoded_message(scale: f32, samples: &[u8]) -> Vec<u8> {
    let length = 36 + 28 + samples.len() as u16;
    let mut bytes = Vec::new();
    bytes.extend_from_slice(b"KOKX");
    bytes.extend_from_slice(&43_200_000u32.to_be_bytes());
    bytes.extend_from_slice(&2u16.to_be_bytes());
    bytes.extend_from_slice(&7u16.to_be_bytes());
    bytes.extend_from_slice(&3.5f32.to_be_bytes());
    bytes.extend_from_slice(&[0, 0]);
    bytes.extend_from_slice(&length.to_be_bytes());
    bytes.extend_from_slice(&[1, 0, 2, 0]);
    bytes.extend_from_slice(&1.25f32.to_be_bytes());
    bytes.extend_from_slice(&[0, 0]);
    bytes.extend_from_slice(&1u16.to_be_bytes());
    bytes.extend_from_slice(&36u32.to_be_bytes());
    bytes.extend_from_slice(b"DREF");
    bytes.extend_from_slice(&[0; 4]);
    bytes.extend_from_slice(&(samples.len() as u16).to_be_bytes());
    bytes.extend_from_slice(&[0; 9]);
    bytes.push(8);
    bytes.extend_from_slice(&scale.to_be_bytes());
    bytes.extend_from_slice(&64.0f32.to_be_bytes());
    bytes.extend_from_slice(samples);
    bytes
}

#[test]
fn bytes_decode_to_a_radial() {
    let mut bytes = encoded_message(2.0, &[66, 0, 1]);
    bytes.push(0xff);
    let mut reader = ByteReader::new(&bytes);
    let radial = decode_digital_radar_data(&mut reader).unwrap();
    assert_eq!(reader.position(), bytes.len() - 1);
    assert_eq!(radial.collection_timestamp, 2 * 86_400_000 + 43_200_000);
    assert_eq!(radial.azimuth_number, 7);
    assert_eq!(radial.elevation_number, 2);
    assert_eq!(radial.azimuth_spacing_degrees, bits_of(0.5));
    assert_eq!(radial.velocity, None);
    let reflectivity = radial.reflectivity.clone().unwrap();
    assert_eq!(
        reflectivity.values,
        vec![MomentValue::Value(66), MomentValue::BelowThreshold, MomentValue::RangeFolded]
    );
    assert_eq!(physical(&reflectivity, 0), Some(1.0));
    let mut again = ByteReader::new(&bytes);
    assert_eq!(digital_radar_data(&mut again), Ok(radial));
    assert_eq!(again.position(), bytes.len() - 1);
}

#[test]
fn bytes_with_scale_zero_decode_to_no_radial() {
    let bytes = encoded_message(0.0, &[66]);
    let mut reader = ByteReader::new(&bytes);
    assert_eq!(decode_digital_radar_data(&mut reader), Err(Error::InvalidScale));
    assert_eq!(reader.position(), 0);
    assert_eq!(digital_radar_data(&mut reader), Err(Error::InvalidScale));
    assert_eq!(reader.position(), 0);
    // The raw decoder has no objection to such a block.
    assert!(nexrad::messages::digital_radar_data::decode_digital_radar_data(&mut reader).is_ok());
}

#[test]
fn decode_errors_pass_through_to_the_radial() {
    let bytes = encoded_message(2.0, &[66]);
    let mut reader = ByteReader::new(&bytes[..bytes.len() - 1]);
    assert_eq!(decode_digital_radar_data(&mut reader), Err(Error::UnexpectedEof));
    assert_eq!(reader.position(), 0);
    let mut wrong_width = bytes.clone();
    wrong_width[36 + 19] = 10;
    let mut reader = ByteReader::new(&wrong_width);
    assert_eq!(digital_radar_data(&mut reader), Err(Error::UnsupportedDataWordSize));
    let mut wrong_offset = bytes.clone();
    wrong_offset[35] = 200;
    let mut reader = ByteReader::new(&wrong_offset);
    assert_eq!(digital_radar_data(&mut reader), Err(Error::CorruptMessage));
}
