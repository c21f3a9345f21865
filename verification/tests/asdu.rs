use bytes::{Bytes, BytesMut};

use lib60870::asdu::{Asdu, AsduBuilder, AsduHeader, Indexed, InformationObjectAddress};
use lib60870::error::AduError;
use lib60870::info::{InformationObject, InterrogationCommand, ReadCommand, SinglePointInformation};
use lib60870::types::{
    AppLayerParameters, CauseOfTransmission, CommonAddress, OriginatorAddress, QualityDescriptor,
    TypeId,
};

fn spi(val: bool) -> InformationObject {
    InformationObject::SinglePoint(SinglePointInformation::new(val, QualityDescriptor::empty()))
}

fn cs104() -> AppLayerParameters {
    AppLayerParameters::cs104_default()
}

// --- Information object address ---

#[test]
fn try_new_valid() {
    let ioa = InformationObjectAddress::try_new(0xFFFFFF).unwrap();
    assert_eq!(ioa.value(), 0xFFFFFF);
}

#[test]
fn try_new_zero() {
    let ioa = InformationObjectAddress::try_new(0).unwrap();
    assert_eq!(ioa.value(), 0);
}

#[test]
fn try_new_rejects_overflow() {
    assert!(InformationObjectAddress::try_new(0x1000000).is_err());
    assert!(InformationObjectAddress::try_new(u32::MAX).is_err());
}

#[test]
fn try_from_u32() {
    let ioa: InformationObjectAddress = 42u32.try_into().unwrap();
    assert_eq!(ioa.value(), 42);
}

#[test]
fn try_from_u32_overflow() {
    let result: std::result::Result<InformationObjectAddress, _> = 0x1000000u32.try_into();
    assert!(result.is_err());
}

#[test]
fn ioa_from_u16() {
    let ioa: InformationObjectAddress = 1000u16.into();
    assert_eq!(ioa.value(), 1000);
}

#[test]
fn ioa_from_u8() {
    let ioa: InformationObjectAddress = 255u8.into();
    assert_eq!(ioa.value(), 255);
}

#[test]
fn roundtrip_1_byte() {
    let ioa = InformationObjectAddress::try_new(0xAB).unwrap();
    let mut buf = BytesMut::with_capacity(4);
    ioa.encode(&mut buf, 1).unwrap();
    assert_eq!(buf.len(), 1);
    let mut reader = Bytes::from(buf);
    let decoded = InformationObjectAddress::decode(&mut reader, 1).unwrap();
    assert_eq!(decoded.value(), 0xAB);
}

#[test]
fn roundtrip_2_bytes() {
    let ioa = InformationObjectAddress::try_new(0x1234).unwrap();
    let mut buf = BytesMut::with_capacity(4);
    ioa.encode(&mut buf, 2).unwrap();
    assert_eq!(buf.len(), 2);
    let mut reader = Bytes::from(buf);
    let decoded = InformationObjectAddress::decode(&mut reader, 2).unwrap();
    assert_eq!(decoded.value(), 0x1234);
}

#[test]
fn roundtrip_3_bytes() {
    let ioa = InformationObjectAddress::try_new(0x123456).unwrap();
    let mut buf = BytesMut::with_capacity(4);
    ioa.encode(&mut buf, 3).unwrap();
    assert_eq!(buf.len(), 3);
    let mut reader = Bytes::from(buf);
    let decoded = InformationObjectAddress::decode(&mut reader, 3).unwrap();
    assert_eq!(decoded.value(), 0x123456);
}

#[test]
fn ioa_buffer_too_short_decode() {
    let mut buf = Bytes::from_static(&[0x01]);
    assert!(InformationObjectAddress::decode(&mut buf, 3).is_err());
}

#[test]
fn ioa_little_endian_and_truncated() {
    let ioa = InformationObjectAddress::try_new(0x123456).unwrap();
    let mut buf = BytesMut::new();
    ioa.encode(&mut buf, 3).unwrap();
    assert_eq!(&buf[..], &[0x56, 0x34, 0x12]);
    // a shorter address width keeps only the low bytes
    let mut buf = BytesMut::new();
    ioa.encode(&mut buf, 1).unwrap();
    assert_eq!(&buf[..], &[0x56]);
    assert_eq!(ioa.to_string(), "1193046");
}

// --- Header ---

#[test]
fn roundtrip_cs104() {
    let params = AppLayerParameters::cs104_default();
    let header = AsduHeader {
        type_id: TypeId::MSpNa1,
        is_sequence: false,
        num_objects: 3,
        cause: CauseOfTransmission::Spontaneous,
        is_test: false,
        is_negative: false,
        originator_address: OriginatorAddress::default(),
        common_address: CommonAddress::new(1),
    };

    let mut buf = BytesMut::with_capacity(32);
    header.encode(&mut buf, &params).unwrap();
    assert_eq!(buf.len(), params.asdu_header_size());

    let mut reader = Bytes::from(buf);
    let decoded = AsduHeader::decode(&mut reader, &params).unwrap();
    assert_eq!(header, decoded);
}

#[test]
fn roundtrip_cs101_1byte_ca() {
    let params = AppLayerParameters::builder()
        .size_of_cot(1)
        .size_of_ca(1)
        .size_of_ioa(2)
        .max_asdu_length(254)
        .build()
        .unwrap();
    let header = AsduHeader {
        type_id: TypeId::CScNa1,
        is_sequence: true,
        num_objects: 1,
        cause: CauseOfTransmission::Activation,
        is_test: true,
        is_negative: true,
        originator_address: OriginatorAddress::default(), // ignored when size_of_cot == 1
        common_address: CommonAddress::new(5),
    };

    let mut buf = BytesMut::with_capacity(32);
    header.encode(&mut buf, &params).unwrap();
    // type_id(1) + vsq(1) + cot(1) + ca(1) = 4
    assert_eq!(buf.len(), 4);

    let mut reader = Bytes::from(buf);
    let decoded = AsduHeader::decode(&mut reader, &params).unwrap();
    assert_eq!(decoded.type_id, header.type_id);
    assert_eq!(decoded.is_sequence, header.is_sequence);
    assert_eq!(decoded.cause, header.cause);
    assert_eq!(decoded.is_test, header.is_test);
    assert_eq!(decoded.is_negative, header.is_negative);
    assert_eq!(decoded.common_address, header.common_address);
    // originator_address not encoded when size_of_cot == 1
    assert_eq!(decoded.originator_address, OriginatorAddress::default());
}

#[test]
fn test_and_negative_bits() {
    let params = AppLayerParameters::cs104_default();
    let header = AsduHeader {
        type_id: TypeId::MSpNa1,
        is_sequence: false,
        num_objects: 1,
        cause: CauseOfTransmission::Activation,
        is_test: true,
        is_negative: true,
        originator_address: OriginatorAddress::new(42),
        common_address: CommonAddress::new(0x1234),
    };

    let mut buf = BytesMut::with_capacity(32);
    header.encode(&mut buf, &params).unwrap();
    let mut reader = Bytes::from(buf);
    let decoded = AsduHeader::decode(&mut reader, &params).unwrap();
    assert_eq!(decoded.is_test, true);
    assert_eq!(decoded.is_negative, true);
    assert_eq!(decoded.originator_address, OriginatorAddress::new(42));
    assert_eq!(decoded.common_address, CommonAddress::new(0x1234));
}

#[test]
fn sequence_flag() {
    let params = AppLayerParameters::cs104_default();
    let header = AsduHeader {
        type_id: TypeId::MSpNa1,
        is_sequence: true,
        num_objects: 127,
        cause: CauseOfTransmission::Periodic,
        is_test: false,
        is_negative: false,
        originator_address: OriginatorAddress::default(),
        common_address: CommonAddress::new(1),
    };

    let mut buf = BytesMut::with_capacity(32);
    header.encode(&mut buf, &params).unwrap();
    let mut reader = Bytes::from(buf);
    let decoded = AsduHeader::decode(&mut reader, &params).unwrap();
    assert_eq!(decoded.is_sequence, true);
    assert_eq!(decoded.num_objects, 127);
}

#[test]
fn header_buffer_too_short() {
    let params = AppLayerParameters::cs104_default();
    let mut buf = Bytes::from_static(&[0x01, 0x02]);
    assert!(AsduHeader::decode(&mut buf, &params).is_err());
}

#[test]
fn header_rejects_too_many_objects_and_bad_codes() {
    let params = AppLayerParameters::cs104_default();
    let mut header = AsduHeader {
        type_id: TypeId::MSpNa1,
        is_sequence: false,
        num_objects: 128,
        cause: CauseOfTransmission::Spontaneous,
        is_test: false,
        is_negative: false,
        originator_address: OriginatorAddress::default(),
        common_address: CommonAddress::new(1),
    };
    let mut buf = BytesMut::new();
    assert_eq!(header.encode(&mut buf, &params).unwrap_err(), AduError::NumObjectsOverflow(128));
    assert_eq!(buf.len(), 0);
    header.num_objects = 1;
    header.encode(&mut buf, &params).unwrap();
    assert_eq!(&buf[..], &[0x01, 0x01, 0x03, 0x00, 0x01, 0x00]);

    let mut bad_type = Bytes::from_static(&[22, 0x01, 0x03, 0x00, 0x01, 0x00]);
    assert_eq!(AsduHeader::decode(&mut bad_type, &params).unwrap_err(), AduError::InvalidTypeId(22));
    let mut bad_cot = Bytes::from_static(&[1, 0x01, 0x00, 0x00, 0x01, 0x00]);
    assert_eq!(
        AsduHeader::decode(&mut bad_cot, &params).unwrap_err(),
        AduError::InvalidCauseOfTransmission(0)
    );
}

// --- ASDU ---

#[test]
fn roundtrip_sq0() {
    let asdu = Asdu {
        header: AsduHeader {
            type_id: TypeId::MSpNa1,
            is_sequence: false,
            num_objects: 3,
            cause: CauseOfTransmission::Spontaneous,
            is_test: false,
            is_negative: false,
            originator_address: OriginatorAddress::default(),
            common_address: CommonAddress::new(1),
        },
        objects: vec![
            Indexed { address: 100u16.into(), value: spi(true) },
            Indexed { address: 200u16.into(), value: spi(false) },
            Indexed { address: 300u16.into(), value: spi(true) },
        ],
    };

    let params = cs104();
    let mut buf = BytesMut::with_capacity(64);
    asdu.encode(&mut buf, &params).unwrap();
    assert_eq!(buf.len(), asdu.encoded_size(&params));

    let mut reader = Bytes::from(buf);
    let decoded = Asdu::decode(&mut reader, &params).unwrap();
    assert_eq!(asdu, decoded);
}

#[test]
fn roundtrip_sq1() {
    let asdu = Asdu {
        header: AsduHeader {
            type_id: TypeId::MSpNa1,
            is_sequence: true,
            num_objects: 3,
            cause: CauseOfTransmission::InterrogatedByStation,
            is_test: false,
            is_negative: false,
            originator_address: OriginatorAddress::default(),
            common_address: CommonAddress::new(1),
        },
        objects: vec![
            Indexed { address: 100u16.into(), value: spi(true) },
            Indexed { address: 101u16.into(), value: spi(false) },
            Indexed { address: 102u16.into(), value: spi(true) },
        ],
    };

    let params = cs104();
    let mut buf = BytesMut::with_capacity(64);
    asdu.encode(&mut buf, &params).unwrap();

    // SQ=1 should be smaller: 1 IOA instead of 3
    let sq0_size = AsduHeader::encoded_size(&params) + 3 * (3 + 1); // 3 * (ioa + spi)
    let sq1_size = asdu.encoded_size(&params);
    assert!(sq1_size < sq0_size);

    let mut reader = Bytes::from(buf);
    let decoded = Asdu::decode(&mut reader, &params).unwrap();
    assert_eq!(asdu, decoded);
}

#[test]
fn encode_rejects_heterogeneous_types() {
    let asdu = Asdu {
        header: AsduHeader {
            type_id: TypeId::MSpNa1,
            is_sequence: false,
            num_objects: 2,
            cause: CauseOfTransmission::Spontaneous,
            is_test: false,
            is_negative: false,
            originator_address: OriginatorAddress::default(),
            common_address: CommonAddress::new(1),
        },
        objects: vec![
            Indexed { address: 100u16.into(), value: spi(true) },
            Indexed {
                address: 101u16.into(),
                value: InformationObject::Interrogation(InterrogationCommand::station()),
            },
        ],
    };

    let params = cs104();
    let mut buf = BytesMut::with_capacity(64);
    assert!(asdu.encode(&mut buf, &params).is_err());
}

#[test]
fn encode_rejects_non_sequential_ioas_with_sq1() {
    let asdu = Asdu {
        header: AsduHeader {
            type_id: TypeId::MSpNa1,
            is_sequence: true,
            num_objects: 2,
            cause: CauseOfTransmission::Spontaneous,
            is_test: false,
            is_negative: false,
            originator_address: OriginatorAddress::default(),
            common_address: CommonAddress::new(1),
        },
        objects: vec![
            Indexed { address: 100u16.into(), value: spi(true) },
            Indexed { address: 200u16.into(), value: spi(false) }, // gap!
        ],
    };

    let params = cs104();
    let mut buf = BytesMut::with_capacity(64);
    assert!(asdu.encode(&mut buf, &params).is_err());
}

#[test]
fn encode_rejects_exceeding_max_length() {
    let params = AppLayerParameters::builder()
        .max_asdu_length(10) // artificially small
        .build()
        .unwrap();

    let asdu = AsduBuilder::new(CauseOfTransmission::Spontaneous, CommonAddress::new(1))
        .add(100u16, spi(true))
        .unwrap()
        .add(101u16, spi(false))
        .unwrap()
        .add(102u16, spi(true))
        .unwrap()
        .build()
        .unwrap();

    let mut buf = BytesMut::with_capacity(64);
    assert!(asdu.encode(&mut buf, &params).is_err());
}

#[test]
fn builder_encode_roundtrip() {
    let params = cs104();
    let asdu = AsduBuilder::new(CauseOfTransmission::Spontaneous, CommonAddress::new(1))
        .originator(OriginatorAddress::new(7))
        .sequential(true)
        .add(100u16, spi(true))
        .unwrap()
        .add(101u16, spi(false))
        .unwrap()
        .build()
        .unwrap();

    let mut buf = BytesMut::with_capacity(64);
    asdu.encode(&mut buf, &params).unwrap();

    let mut reader = Bytes::from(buf);
    let decoded = Asdu::decode(&mut reader, &params).unwrap();
    assert_eq!(asdu, decoded);
}

#[test]
fn encoded_size_empty() {
    let asdu = Asdu {
        header: AsduHeader {
            type_id: TypeId::MSpNa1,
            is_sequence: false,
            num_objects: 0,
            cause: CauseOfTransmission::Spontaneous,
            is_test: false,
            is_negative: false,
            originator_address: OriginatorAddress::default(),
            common_address: CommonAddress::new(1),
        },
        objects: vec![],
    };
    let params = cs104();
    assert_eq!(asdu.encoded_size(&params), params.asdu_header_size());
}

#[test]
fn roundtrip_cs101_small_params() {
    let params = AppLayerParameters::builder()
        .size_of_cot(1)
        .size_of_ca(1)
        .size_of_ioa(1)
        .max_asdu_length(254)
        .build()
        .unwrap();

    let asdu = Asdu {
        header: AsduHeader {
            type_id: TypeId::MSpNa1,
            is_sequence: false,
            num_objects: 2,
            cause: CauseOfTransmission::Spontaneous,
            is_test: false,
            is_negative: false,
            originator_address: OriginatorAddress::default(),
            common_address: CommonAddress::new(5),
        },
        objects: vec![
            Indexed { address: 10u16.into(), value: spi(true) },
            Indexed { address: 20u16.into(), value: spi(false) },
        ],
    };

    let mut buf = BytesMut::with_capacity(64);
    asdu.encode(&mut buf, &params).unwrap();
    assert_eq!(buf.len(), asdu.encoded_size(&params));

    let mut reader = Bytes::from(buf);
    let decoded = Asdu::decode(&mut reader, &params).unwrap();
    assert_eq!(asdu, decoded);
}

#[test]
fn encode_error_values() {
    let params = cs104();
    let mixed = Asdu {
        header: AsduHeader {
            type_id: TypeId::MSpNa1,
            is_sequence: true,
            num_objects: 2,
            cause: CauseOfTransmission::Spontaneous,
            is_test: false,
            is_negative: false,
            originator_address: OriginatorAddress::default(),
            common_address: CommonAddress::new(1),
        },
        objects: vec![
            Indexed { address: 100u16.into(), value: spi(true) },
            Indexed { address: 200u16.into(), value: spi(false) },
        ],
    };
    let mut buf = BytesMut::new();
    assert_eq!(
        mixed.encode(&mut buf, &params).unwrap_err(),
        AduError::NonSequentialIoa { index: 1, expected: 101, got: 200 }
    );
    assert_eq!(buf.len(), 0);

    let mut wrong_type = mixed.clone();
    wrong_type.objects[1].value = InformationObject::Read(ReadCommand);
    assert_eq!(
        wrong_type.encode(&mut buf, &params).unwrap_err(),
        AduError::TypeMismatch { expected: 1, got: 102 }
    );

    let small = AppLayerParameters::builder().max_asdu_length(10).build().unwrap();
    let mut fine = mixed.clone();
    fine.objects[1].address = 101u16.into();
    // 6 header + 3 address + 2 payload bytes
    assert_eq!(fine.encoded_size(&params), 11);
    assert_eq!(
        fine.encode(&mut buf, &small).unwrap_err(),
        AduError::ExceedsMaxLength { size: 11, max: 10 }
    );
}

#[test]
fn sq1_decode_computes_addresses() {
    let params = cs104();
    // M_SP_NA_1, SQ=1, 3 objects, spontaneous, CA 1, IOA 0x0000FF, then 3 SIQ bytes
    let mut reader =
        Bytes::from_static(&[1, 0x83, 3, 0, 1, 0, 0xFF, 0x00, 0x00, 0x01, 0x00, 0x01]);
    let decoded = Asdu::decode(&mut reader, &params).unwrap();
    let addresses: Vec<u32> = decoded.objects.iter().map(|o| o.address.value()).collect();
    assert_eq!(addresses, vec![255, 256, 257]);
    assert_eq!(reader.len(), 0);
}

#[test]
fn sq1_decode_address_overflow() {
    let params = cs104();
    // base address 0xFFFFFF, two objects: the second address would be 0x1000000
    let mut reader = Bytes::from_static(&[1, 0x82, 3, 0, 1, 0, 0xFF, 0xFF, 0xFF, 0x01, 0x00]);
    assert_eq!(
        Asdu::decode(&mut reader, &params).unwrap_err(),
        AduError::IoaOverflow(lib60870::error::IoaOverflow(0x1000000))
    );
}

// --- Builder ---

#[test]
fn build_simple() {
    let asdu = AsduBuilder::new(CauseOfTransmission::Spontaneous, CommonAddress::new(1))
        .add(100u16, spi(true))
        .unwrap()
        .add(101u16, spi(false))
        .unwrap()
        .build()
        .unwrap();

    assert_eq!(asdu.header.num_objects, 2);
    assert_eq!(asdu.header.type_id, TypeId::MSpNa1);
    assert_eq!(asdu.objects[0].address.value(), 100);
    assert_eq!(asdu.objects[1].address.value(), 101);
}

#[test]
fn build_sequential() {
    let asdu = AsduBuilder::new(CauseOfTransmission::Spontaneous, CommonAddress::new(1))
        .sequential(true)
        .add(100u16, spi(true))
        .unwrap()
        .add(101u16, spi(false))
        .unwrap()
        .build()
        .unwrap();

    assert!(asdu.header.is_sequence);
}

#[test]
fn type_mismatch() {
    let result = AsduBuilder::new(CauseOfTransmission::Spontaneous, CommonAddress::new(1))
        .add(100u16, spi(true))
        .unwrap()
        .add(101u16, InformationObject::Interrogation(InterrogationCommand::station()));

    assert!(result.is_err());
}

#[test]
fn build_empty() {
    let result = AsduBuilder::new(CauseOfTransmission::Spontaneous, CommonAddress::new(1)).build();
    assert!(result.is_err());
}

#[test]
fn overflow_127() {
    let mut builder = AsduBuilder::new(CauseOfTransmission::Spontaneous, CommonAddress::new(1));
    for i in 0..127u16 {
        builder = builder.add(i, spi(true)).unwrap();
    }
    let result = builder.add(127u16, spi(true));
    assert!(result.is_err());
}

#[test]
fn builder_flags() {
    let asdu = AsduBuilder::new(CauseOfTransmission::Activation, CommonAddress::new(0x1234))
        .test(true)
        .negative(true)
        .originator(OriginatorAddress::new(42))
        .add(1u16, spi(true))
        .unwrap()
        .build()
        .unwrap();

    assert!(asdu.header.is_test);
    assert!(asdu.header.is_negative);
    assert_eq!(asdu.header.originator_address, OriginatorAddress::new(42));
    assert_eq!(asdu.header.common_address, CommonAddress::new(0x1234));
}

#[test]
fn builder_error_values() {
    assert_eq!(
        AsduBuilder::new(CauseOfTransmission::Spontaneous, CommonAddress::new(1)).build().unwrap_err(),
        AduError::EmptyAsdu
    );
    let err = AsduBuilder::new(CauseOfTransmission::Spontaneous, CommonAddress::new(1))
        .add(1u16, spi(true))
        .unwrap()
        .add(2u16, InformationObject::Read(ReadCommand))
        .err()
        .unwrap();
    assert_eq!(err, AduError::TypeMismatch { expected: 1, got: 102 });
}
