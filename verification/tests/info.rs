use bytes::{Bytes, BytesMut};

use lib60870::error::AduError;
use lib60870::info::{
    BinaryCounterReading, ClockSyncCommand, CounterInterrogationCommand, Decode,
    DoublePointInformation, Encode, EndOfInitialization, InformationObject, InterrogationCommand,
    MeasuredValueNormalized, MeasuredValueNormalizedNoQuality, MeasuredValueScaled,
    MeasuredValueShortFloat, ReadCommand, SingleCommand, SinglePointInformation,
};
use lib60870::types::{Cp56Time2a, DoublePointValue, QualityDescriptor, TypeId};

// --- Single command ---

#[test]
fn commands_roundtrip() {
    let cmd = SingleCommand::new(true, 5, true);
    let mut buf = BytesMut::with_capacity(16);
    cmd.encode(&mut buf).unwrap();
    assert_eq!(buf.len(), 1);

    let mut reader = Bytes::from(buf);
    let decoded = SingleCommand::decode(&mut reader).unwrap();
    assert_eq!(cmd, decoded);
}

#[test]
fn off_execute() {
    let cmd = SingleCommand::new(false, 0, false);
    let mut buf = BytesMut::with_capacity(16);
    cmd.encode(&mut buf).unwrap();
    assert_eq!(buf[0], 0x00);

    let mut reader = Bytes::from(buf);
    let decoded = SingleCommand::decode(&mut reader).unwrap();
    assert!(!decoded.state);
    assert_eq!(decoded.qualifier, 0);
    assert!(!decoded.select);
}

#[test]
fn commands_buffer_too_short() {
    let mut buf = Bytes::new();
    assert!(SingleCommand::decode(&mut buf).is_err());
}

#[test]
fn single_command_sco_byte() {
    // S/E in bit 7, qualifier in bits 2-6, state in bit 0
    let cmd = SingleCommand::new(true, 5, true);
    let mut buf = BytesMut::new();
    cmd.encode(&mut buf).unwrap();
    assert_eq!(buf[0], 0x80 | (5 << 2) | 0x01);
}

// --- Double point ---

#[test]
fn double_point_roundtrip() {
    let dpi = DoublePointInformation::new(DoublePointValue::On, QualityDescriptor::substituted());
    let mut buf = BytesMut::with_capacity(16);
    dpi.encode(&mut buf).unwrap();
    assert_eq!(buf.len(), 1);

    let mut reader = Bytes::from(buf);
    let decoded = DoublePointInformation::decode(&mut reader).unwrap();
    assert_eq!(dpi, decoded);
}

#[test]
fn all_values() {
    for raw in 0..=3u8 {
        let val = DoublePointValue::from_raw(raw);
        let dpi = DoublePointInformation::new(val, QualityDescriptor::empty());
        let mut buf = BytesMut::with_capacity(16);
        dpi.encode(&mut buf).unwrap();
        let mut reader = Bytes::from(buf);
        let decoded = DoublePointInformation::decode(&mut reader).unwrap();
        assert_eq!(decoded.value, val);
    }
}

#[test]
fn double_point_buffer_too_short() {
    let mut buf = Bytes::new();
    assert!(DoublePointInformation::decode(&mut buf).is_err());
}

// --- Integrated totals ---

#[test]
fn integrated_totals_roundtrip() {
    let mut bcr = BinaryCounterReading::new(123456, 15);
    bcr.carry = true;
    bcr.invalid = true;

    let mut buf = BytesMut::with_capacity(16);
    bcr.encode(&mut buf).unwrap();
    assert_eq!(buf.len(), 5);

    let mut reader = Bytes::from(buf);
    let decoded = BinaryCounterReading::decode(&mut reader).unwrap();
    assert_eq!(bcr, decoded);
}

#[test]
fn integrated_totals_negative_value() {
    let bcr = BinaryCounterReading::new(-999999, 0);
    let mut buf = BytesMut::with_capacity(16);
    bcr.encode(&mut buf).unwrap();
    let mut reader = Bytes::from(buf);
    let decoded = BinaryCounterReading::decode(&mut reader).unwrap();
    assert_eq!(decoded.value, -999999);
}

#[test]
fn all_flags() {
    let mut bcr = BinaryCounterReading::new(0, 31);
    bcr.carry = true;
    bcr.adjusted = true;
    bcr.invalid = true;

    let mut buf = BytesMut::with_capacity(16);
    bcr.encode(&mut buf).unwrap();
    let mut reader = Bytes::from(buf);
    let decoded = BinaryCounterReading::decode(&mut reader).unwrap();
    assert_eq!(decoded.sequence_number, 31);
    assert!(decoded.carry);
    assert!(decoded.adjusted);
    assert!(decoded.invalid);
}

#[test]
fn integrated_totals_buffer_too_short() {
    let mut buf = Bytes::from_static(&[0x00, 0x00]);
    assert!(BinaryCounterReading::decode(&mut buf).is_err());
}

// --- Measured values ---

#[test]
fn normalized_roundtrip() {
    let mv = MeasuredValueNormalized::new(-12345, QualityDescriptor::overflow());
    let mut buf = BytesMut::with_capacity(16);
    mv.encode(&mut buf).unwrap();
    assert_eq!(buf.len(), 3);

    let mut reader = Bytes::from(buf);
    let decoded = MeasuredValueNormalized::decode(&mut reader).unwrap();
    assert_eq!(mv, decoded);
}

#[test]
fn normalized_no_quality_roundtrip() {
    let mv = MeasuredValueNormalizedNoQuality::new(32000);
    let mut buf = BytesMut::with_capacity(16);
    mv.encode(&mut buf).unwrap();
    assert_eq!(buf.len(), 2);

    let mut reader = Bytes::from(buf);
    let decoded = MeasuredValueNormalizedNoQuality::decode(&mut reader).unwrap();
    assert_eq!(mv, decoded);
}

#[test]
fn measured_normalized_buffer_too_short() {
    let mut buf = Bytes::from_static(&[0x00]);
    assert!(MeasuredValueNormalized::decode(&mut buf).is_err());

    let mut buf = Bytes::from_static(&[]);
    assert!(MeasuredValueNormalizedNoQuality::decode(&mut buf).is_err());
}

#[test]
fn normalized_little_endian_bytes() {
    let mv = MeasuredValueNormalized::new(-2, QualityDescriptor::invalid());
    let mut buf = BytesMut::new();
    mv.encode(&mut buf).unwrap();
    assert_eq!(&buf[..], &[0xFE, 0xFF, 0x80]);
}

#[test]
fn measured_scaled_roundtrip() {
    let mv = MeasuredValueScaled::new(-500, QualityDescriptor::non_topical());
    let mut buf = BytesMut::with_capacity(16);
    mv.encode(&mut buf).unwrap();
    assert_eq!(buf.len(), 3);

    let mut reader = Bytes::from(buf);
    let decoded = MeasuredValueScaled::decode(&mut reader).unwrap();
    assert_eq!(mv, decoded);
}

#[test]
fn measured_scaled_buffer_too_short() {
    let mut buf = Bytes::from_static(&[0x00]);
    assert!(MeasuredValueScaled::decode(&mut buf).is_err());
}

#[test]
fn measured_short_roundtrip() {
    let mv = MeasuredValueShortFloat::new(
        3.14f32.to_bits(),
        QualityDescriptor::overflow() | QualityDescriptor::invalid(),
    );
    let mut buf = BytesMut::with_capacity(16);
    mv.encode(&mut buf).unwrap();
    assert_eq!(buf.len(), 5);

    let mut reader = Bytes::from(buf);
    let decoded = MeasuredValueShortFloat::decode(&mut reader).unwrap();
    assert_eq!(mv.value_bits, decoded.value_bits);
    assert_eq!(mv.quality, decoded.quality);
}

#[test]
fn measured_short_negative_value() {
    let mv = MeasuredValueShortFloat::new((-273.15f32).to_bits(), QualityDescriptor::empty());
    let mut buf = BytesMut::with_capacity(16);
    mv.encode(&mut buf).unwrap();
    let mut reader = Bytes::from(buf);
    let decoded = MeasuredValueShortFloat::decode(&mut reader).unwrap();
    assert!((f32::from_bits(decoded.value_bits) - (-273.15)).abs() < f32::EPSILON);
}

#[test]
fn measured_short_buffer_too_short() {
    let mut buf = Bytes::from_static(&[0x00, 0x00, 0x00]);
    assert!(MeasuredValueShortFloat::decode(&mut buf).is_err());
}

// --- Information objects ---

#[test]
fn type_id_roundtrip_single_point() {
    let spi = SinglePointInformation::new(true, QualityDescriptor::empty());
    let obj = InformationObject::SinglePoint(spi);
    assert_eq!(obj.type_id(), TypeId::MSpNa1);

    let mut buf = BytesMut::with_capacity(16);
    obj.encode(&mut buf).unwrap();
    let mut reader = Bytes::from(buf);
    let decoded = InformationObject::decode(TypeId::MSpNa1, &mut reader).unwrap();
    assert_eq!(decoded.type_id(), TypeId::MSpNa1);
}

#[test]
fn type_id_roundtrip_single_point_cp56() {
    let spi = SinglePointInformation::new(false, QualityDescriptor::invalid());
    let mut time = Cp56Time2a::new();
    time.set_year(25);
    time.set_month(6);

    let obj = InformationObject::SinglePointCp56(spi, time);
    assert_eq!(obj.type_id(), TypeId::MSpTb1);
    assert_eq!(obj.encoded_size(), 1 + 7);

    let mut buf = BytesMut::with_capacity(16);
    obj.encode(&mut buf).unwrap();
    let mut reader = Bytes::from(buf);
    let decoded = InformationObject::decode(TypeId::MSpTb1, &mut reader).unwrap();
    assert_eq!(obj, decoded);
}

#[test]
fn type_id_roundtrip_measured_short_float_cp56() {
    let mv = MeasuredValueShortFloat::new(42.5f32.to_bits(), QualityDescriptor::empty());
    let time = Cp56Time2a::new();
    let obj = InformationObject::MeasuredShortFloatCp56(mv, time);
    assert_eq!(obj.type_id(), TypeId::MMeTf1);

    let mut buf = BytesMut::with_capacity(32);
    obj.encode(&mut buf).unwrap();
    let mut reader = Bytes::from(buf);
    let decoded = InformationObject::decode(TypeId::MMeTf1, &mut reader).unwrap();
    assert_eq!(obj, decoded);
}

#[test]
fn type_id_roundtrip_interrogation() {
    let obj = InformationObject::Interrogation(InterrogationCommand::station());
    assert_eq!(obj.type_id(), TypeId::CIcNa1);

    let mut buf = BytesMut::with_capacity(16);
    obj.encode(&mut buf).unwrap();
    let mut reader = Bytes::from(buf);
    let decoded = InformationObject::decode(TypeId::CIcNa1, &mut reader).unwrap();
    assert_eq!(obj, decoded);
}

#[test]
fn type_id_roundtrip_read_command() {
    let obj = InformationObject::Read(ReadCommand);
    assert_eq!(obj.type_id(), TypeId::CRdNa1);
    assert_eq!(obj.encoded_size(), 0);

    let mut buf = BytesMut::with_capacity(16);
    obj.encode(&mut buf).unwrap();
    let mut reader = Bytes::from(buf);
    let decoded = InformationObject::decode(TypeId::CRdNa1, &mut reader).unwrap();
    assert_eq!(obj, decoded);
}

#[test]
fn unsupported_type_id() {
    let mut buf = Bytes::from_static(&[0x00]);
    assert!(InformationObject::decode(TypeId::MStNa1, &mut buf).is_err());
}

#[test]
fn unsupported_type_id_reports_code() {
    let mut buf = Bytes::from_static(&[0x00]);
    assert_eq!(
        InformationObject::decode(TypeId::MStNa1, &mut buf).unwrap_err(),
        AduError::UnsupportedTypeId(5)
    );
    // nothing was read
    assert_eq!(buf.len(), 1);
}

#[test]
fn decode_reports_missing_bytes() {
    let mut buf = Bytes::from_static(&[0x01]);
    assert_eq!(
        InformationObject::decode(TypeId::MSpTb1, &mut buf).unwrap_err(),
        AduError::BufferTooShort { need: 7, have: 0 }
    );
}

// --- Single point ---

#[test]
fn single_point_roundtrip() {
    let spi = SinglePointInformation::new(true, QualityDescriptor::blocked() | QualityDescriptor::invalid());
    let mut buf = BytesMut::with_capacity(16);
    spi.encode(&mut buf).unwrap();
    assert_eq!(buf.len(), 1);

    let mut reader = Bytes::from(buf);
    let decoded = SinglePointInformation::decode(&mut reader).unwrap();
    assert_eq!(spi, decoded);
}

#[test]
fn value_off_good_quality() {
    let spi = SinglePointInformation::new(false, QualityDescriptor::empty());
    let mut buf = BytesMut::with_capacity(16);
    spi.encode(&mut buf).unwrap();
    assert_eq!(buf[0], 0x00);

    let mut reader = Bytes::from(buf);
    let decoded = SinglePointInformation::decode(&mut reader).unwrap();
    assert_eq!(decoded.value, false);
    assert!(decoded.quality.is_empty());
}

#[test]
fn single_point_buffer_too_short_decode() {
    let mut buf = Bytes::new();
    assert!(SinglePointInformation::decode(&mut buf).is_err());
}

// --- System commands ---

#[test]
fn interrogation_roundtrip() {
    let cmd = InterrogationCommand::station();
    let mut buf = BytesMut::with_capacity(16);
    cmd.encode(&mut buf).unwrap();
    let mut reader = Bytes::from(buf);
    let decoded = InterrogationCommand::decode(&mut reader).unwrap();
    assert_eq!(decoded.qoi, 20);
}

#[test]
fn counter_interrogation_roundtrip() {
    let cmd = CounterInterrogationCommand::new(0x45);
    let mut buf = BytesMut::with_capacity(16);
    cmd.encode(&mut buf).unwrap();
    let mut reader = Bytes::from(buf);
    let decoded = CounterInterrogationCommand::decode(&mut reader).unwrap();
    assert_eq!(cmd, decoded);
}

#[test]
fn read_command_roundtrip() {
    let cmd = ReadCommand;
    let mut buf = BytesMut::with_capacity(16);
    cmd.encode(&mut buf).unwrap();
    assert_eq!(buf.len(), 0);
    let mut reader = Bytes::from(buf);
    let decoded = ReadCommand::decode(&mut reader).unwrap();
    assert_eq!(cmd, decoded);
}

#[test]
fn clock_sync_roundtrip() {
    let mut time = Cp56Time2a::new();
    time.set_year(25);
    time.set_month(3);
    time.set_day_of_month(17);
    time.set_hour(14);
    time.set_minute(30);
    time.set_second(45);
    time.set_millisecond(123);

    let cmd = ClockSyncCommand::new(time);
    let mut buf = BytesMut::with_capacity(16);
    cmd.encode(&mut buf).unwrap();
    assert_eq!(buf.len(), 7);

    let mut reader = Bytes::from(buf);
    let decoded = ClockSyncCommand::decode(&mut reader).unwrap();
    assert_eq!(cmd, decoded);
}

#[test]
fn end_of_init_roundtrip() {
    let eoi = EndOfInitialization::new(2, true);
    let mut buf = BytesMut::with_capacity(16);
    eoi.encode(&mut buf).unwrap();
    let mut reader = Bytes::from(buf);
    let decoded = EndOfInitialization::decode(&mut reader).unwrap();
    assert_eq!(eoi, decoded);
}

#[test]
fn end_of_init_flags() {
    let eoi = EndOfInitialization::new(1, false);
    let mut buf = BytesMut::with_capacity(16);
    eoi.encode(&mut buf).unwrap();
    assert_eq!(buf[0], 0x01);
}
