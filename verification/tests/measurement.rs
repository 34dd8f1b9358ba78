//! End-to-end checks of the decoder, classifier, filter and assembler on
//! concrete telemetry buffers.

use clipx_reader::fault::{classify, DeviceError, InternalError};
use clipx_reader::measurement::{
    assemble, decode_measurement, encode_measurement, get_measurement, DecodeError,
    GetMeasurementError,
};
use clipx_reader::signal::{filter_signals, is_invalid, Signal};
use clipx_reader::status::{ClipxStatus, MeasurementStatus};
use clipx_reader::words::get_bit;

/// A well-formed buffer: device status, measurement status, then floats.
fn buffer(device_word: u32, measurement_word: u32, floats: &[f32]) -> Vec<u8> {
    let values: Vec<u32> = floats.iter().map(|f| f.to_bits()).collect();
    encode_measurement(
        &ClipxStatus::from_word(device_word),
        &MeasurementStatus::from_word(measurement_word),
        &values,
    )
}

#[test]
fn encode_layout_is_little_endian() {
    // 25.0f32 is 0x41C8_0000: bytes 00 00 C8 41 least-significant first.
    let buf = buffer(0x0000_0001, 0x0000_0008, &[25.0]);
    assert_eq!(
        buf,
        vec![1, 0, 0, 0, 8, 0, 0, 0, 0x00, 0x00, 0xC8, 0x41]
    );
}

#[test]
fn round_trip_preserves_flags_and_bit_patterns() {
    // Several flags in each word, and a NaN with a payload: everything
    // must come back bit-for-bit.
    let device_word = 0x8020_0441;
    let measurement_word = 0x8020_0014;
    let values = vec![12.5f32.to_bits(), 0x7FC0_0123, (-3.25f32).to_bits()];
    let buf = encode_measurement(
        &ClipxStatus::from_word(device_word),
        &MeasurementStatus::from_word(measurement_word),
        &values,
    );
    assert_eq!(buf.len(), 8 + 4 * values.len());
    let (cs, ms, decoded) = decode_measurement(&buf, 3).expect("well-formed buffer");
    assert_eq!(cs.word, device_word);
    assert_eq!(ms.word, measurement_word);
    assert_eq!(decoded, values);
}

#[test]
fn short_buffers_fail_with_too_short() {
    // Two signals need exactly 16 bytes; every shorter prefix fails.
    let buf = buffer(0x0000_0001, 0, &[1.0, 2.0]);
    assert_eq!(buf.len(), 16);
    for len in 0..16 {
        assert_eq!(
            decode_measurement(&buf[..len], 2),
            Err(DecodeError::TooShort),
            "length {len}"
        );
    }
}

#[test]
fn long_buffers_fail_with_too_long() {
    let mut buf = buffer(0x0000_0001, 0, &[1.0, 2.0]);
    buf.push(0);
    assert_eq!(decode_measurement(&buf, 2), Err(DecodeError::TooLong));
    assert_eq!(
        get_measurement(&buf, &vec![Signal::Gross, Signal::Net]),
        Err(GetMeasurementError::Decode(DecodeError::TooLong))
    );
}

#[test]
fn not_ready_is_the_sole_fault_of_an_all_zero_word() {
    // Word 0: `device_ready` cleared, every fault bit cleared.
    let faults = classify(&ClipxStatus::from_word(0));
    assert_eq!(faults, vec![DeviceError::NotReady]);
}

#[test]
fn ready_word_without_fault_bits_classifies_empty() {
    let faults = classify(&ClipxStatus::from_word(0x0000_0001));
    assert!(faults.is_empty());
    // Non-fault flags (sync, change-parameter-set, fieldbus I/O, Ethernet,
    // PPMP connected, reading TEDS, heartbeat) stay ignored.
    let word = 0x0000_0001
        | 0x0000_0002
        | 0x0000_0004
        | 0x0000_0008
        | 0x0000_0010
        | 0x0002_0000
        | 0x0020_0000
        | 0x0080_0000
        | 0x2000_0000
        | 0x8000_0000;
    assert!(classify(&ClipxStatus::from_word(word)).is_empty());
}

#[test]
fn faults_come_out_internal_first_in_check_order() {
    // File-system (bit 6), TEDS (bit 30) and a cleared ready bit: the
    // internal fault leads, then NotReady, then the TEDS device fault.
    let word = (1 << 6) | (1 << 30);
    let faults = classify(&ClipxStatus::from_word(word));
    assert_eq!(
        faults,
        vec![
            DeviceError::Internal(InternalError::FileSystem),
            DeviceError::NotReady,
            DeviceError::Teds,
        ]
    );
}

#[test]
fn every_fault_bit_maps_to_its_variant() {
    let cases: Vec<(u32, DeviceError)> = vec![
        (6, DeviceError::Internal(InternalError::FileSystem)),
        (7, DeviceError::Internal(InternalError::AdcCommunication)),
        (8, DeviceError::Internal(InternalError::AdcIrq)),
        (9, DeviceError::Internal(InternalError::AdcFrozen)),
        (10, DeviceError::Internal(InternalError::AdcDma)),
        (11, DeviceError::Internal(InternalError::DacCommunication)),
        (15, DeviceError::Internal(InternalError::ExternalRam)),
        (18, DeviceError::Internal(InternalError::FieldbusController)),
        (19, DeviceError::Internal(InternalError::FactoryCalibration)),
        (5, DeviceError::ParameterSet),
        (12, DeviceError::DacAlarm),
        (13, DeviceError::OneWireCommunication),
        (14, DeviceError::ClipxBus),
        (16, DeviceError::SensorExcitation),
        (20, DeviceError::TestSignalActive),
        (24, DeviceError::Ppmp),
        (30, DeviceError::Teds),
    ];
    for (bit, expected) in cases {
        let word = 0x0000_0001 | (1u32 << bit);
        let faults = classify(&ClipxStatus::from_word(word));
        assert_eq!(faults, vec![expected], "bit {bit}");
    }
}

#[test]
fn gross_invalid_drops_only_the_gross_value() {
    // Gross-invalid bit set (bit 3), net-invalid clear (bit 4).
    let ms = MeasurementStatus::from_word(1 << 3);
    let kinds = vec![Signal::Gross, Signal::Net];
    let values = vec![1.5f32.to_bits(), 2.5f32.to_bits()];
    let out = filter_signals(&ms, &kinds, &values);
    assert_eq!(
        out,
        vec![
            (Signal::Gross, None),
            (Signal::Net, Some(2.5f32.to_bits())),
        ]
    );
}

#[test]
fn invalid_bits_sit_at_their_documented_offsets() {
    let cases: Vec<(u32, Signal)> = vec![
        (2, Signal::Electrical),
        (3, Signal::Gross),
        (4, Signal::Net),
        (5, Signal::Minimum),
        (6, Signal::Maximum),
        (7, Signal::PeakToPeak),
        (8, Signal::Captured1),
        (9, Signal::Captured2),
        (10, Signal::Bus1),
        (15, Signal::Bus6),
        (21, Signal::Calculated1),
        (26, Signal::Calculated6),
        (27, Signal::ExternalEthernet1),
        (28, Signal::ExternalEthernet2),
        (29, Signal::ExternalFieldbus1),
        (30, Signal::ExternalFieldbus2),
        (31, Signal::AnalogOutput),
    ];
    for (bit, kind) in cases {
        let ms = MeasurementStatus::from_word(1u32 << bit);
        assert!(is_invalid(&ms, kind), "bit {bit}");
        let clear = MeasurementStatus::from_word(!(1u32 << bit));
        assert!(!is_invalid(&clear, kind), "bit {bit} cleared");
    }
}

#[test]
fn assemble_reports_values_for_a_clean_cycle() {
    // Device ready with no fault bits, every value valid.
    let buf = buffer(0x0000_0001, 0x0000_0000, &[12.5, -3.25]);
    let record = assemble(7, &buf, &vec![Signal::Gross, Signal::Net]);
    assert_eq!(record.time_millis, 7);
    assert_eq!(
        record.result,
        Ok(vec![
            (Signal::Gross, Some(12.5f32.to_bits())),
            (Signal::Net, Some((-3.25f32).to_bits())),
        ])
    );
}

#[test]
fn assemble_reports_the_adc_dma_fault_and_discards_values() {
    // Same buffer, with the ADC-DMA fault bit (bit 10) set on top of the
    // ready bit: the trailing float bytes no longer matter.
    let buf = buffer(0x0000_0001 | (1 << 10), 0x0000_0000, &[12.5, -3.25]);
    let record = assemble(7, &buf, &vec![Signal::Gross, Signal::Net]);
    assert_eq!(
        record.result,
        Err(GetMeasurementError::Device(vec![DeviceError::Internal(
            InternalError::AdcDma
        )]))
    );
}

#[test]
fn assemble_reports_decode_errors_before_faults() {
    // A short buffer full of fault bits: the layout failure wins.
    let record = assemble(0, &[0xFF; 5], &vec![Signal::Gross]);
    assert_eq!(
        record.result,
        Err(GetMeasurementError::Decode(DecodeError::TooShort))
    );
}

#[test]
fn timestamp_wraps_at_two_to_the_sixty_four() {
    let buf = buffer(0x0000_0001, 0, &[1.0]);
    let kinds = vec![Signal::Gross];
    let record = assemble(1u128 << 64, &buf, &kinds);
    assert_eq!(record.time_millis, 0);
    let record = assemble((1u128 << 64) + 41, &buf, &kinds);
    assert_eq!(record.time_millis, 41);
    let record = assemble(u64::MAX as u128, &buf, &kinds);
    assert_eq!(record.time_millis, u64::MAX);
}

#[test]
fn mixed_validity_keeps_caller_order() {
    // Electrical (bit 2), net (bit 4), calculated-1 (bit 21) and analog
    // output (bit 31) marked invalid; the others valid.
    let measurement_word = (1 << 2) | (1 << 4) | (1 << 21) | (1 << 31);
    let floats = [1.0f32, 2.0, 3.0, 4.0, 5.0, 6.0];
    let buf = buffer(0x0000_0001, measurement_word, &floats);
    let kinds = vec![
        Signal::Electrical,
        Signal::Gross,
        Signal::Net,
        Signal::Calculated1,
        Signal::ExternalFieldbus2,
        Signal::AnalogOutput,
    ];
    let record = assemble(3, &buf, &kinds);
    assert_eq!(
        record.result,
        Ok(vec![
            (Signal::Electrical, None),
            (Signal::Gross, Some(2.0f32.to_bits())),
            (Signal::Net, None),
            (Signal::Calculated1, None),
            (Signal::ExternalFieldbus2, Some(5.0f32.to_bits())),
            (Signal::AnalogOutput, None),
        ])
    );
}

#[test]
fn get_bit_reads_single_bits() {
    assert!(get_bit(0x8000_0000, 31));
    assert!(!get_bit(0x7FFF_FFFF, 31));
    assert!(get_bit(0x0000_0001, 0));
    assert!(!get_bit(0x0000_0002, 0));
}

#[test]
fn empty_signal_list_decodes_an_eight_byte_buffer() {
    let buf = buffer(0x0000_0001, 0, &[]);
    assert_eq!(buf.len(), 8);
    let record = assemble(0, &buf, &vec![]);
    assert_eq!(record.result, Ok(vec![]));
}
