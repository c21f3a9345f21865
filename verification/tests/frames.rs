use bytes::Bytes;

use lib60870::apci::{encode_apdu, Apdu, FrameReader, UFunction};
use lib60870::error::{FrameError, LinkError};
use lib60870::ft12::{
    checksum, encode_link_frame, ControlField, LinkAddress, LinkFrame, LinkFrameParser,
    PrimaryFunction, SecondaryFunction,
};

fn write_and_read(apdu: &Apdu) -> Apdu {
    let mut reader = FrameReader::new();
    reader.push_bytes(&encode_apdu(apdu));
    reader.try_parse().unwrap().unwrap()
}

fn write_and_read_link(frame: &LinkFrame, addr_size: u8) -> LinkFrame {
    let mut parser = LinkFrameParser::new(addr_size);
    parser.push_bytes(&encode_link_frame(frame, addr_size));
    parser.try_parse().unwrap().unwrap()
}

// --- APCI ---

#[test]
fn roundtrip_u_frame() {
    for func in [
        UFunction::StartDtAct,
        UFunction::StartDtCon,
        UFunction::StopDtAct,
        UFunction::StopDtCon,
        UFunction::TestFrAct,
        UFunction::TestFrCon,
    ] {
        let decoded = write_and_read(&Apdu::U(func));
        assert_eq!(decoded, Apdu::U(func));
    }
}

#[test]
fn roundtrip_s_frame() {
    let apdu = Apdu::S { recv_seq: 1234 };
    assert_eq!(write_and_read(&apdu), apdu);
}

#[test]
fn roundtrip_i_frame() {
    let payload = Bytes::from_static(&[0x01, 0x02, 0x03, 0x04, 0x05]);
    let apdu = Apdu::I { send_seq: 100, recv_seq: 50, payload: payload.clone() };
    assert_eq!(write_and_read(&apdu), apdu);
}

#[test]
fn roundtrip_max_sequence_numbers() {
    let apdu = Apdu::I { send_seq: 32767, recv_seq: 32767, payload: Bytes::from_static(&[0xFF]) };
    assert_eq!(write_and_read(&apdu), apdu);
}

#[test]
fn apci_invalid_start_byte() {
    let mut reader = FrameReader::new();
    reader.push_bytes(&[0x99, 0x04, 0x07, 0x00, 0x00, 0x00]);
    let err = reader.try_parse().unwrap_err();
    assert!(matches!(err, FrameError::InvalidStartByte(0x99)));
}

#[test]
fn apci_multiple_frames_in_buffer() {
    let mut reader = FrameReader::new();
    reader.push_bytes(&encode_apdu(&Apdu::U(UFunction::TestFrAct)));
    reader.push_bytes(&encode_apdu(&Apdu::U(UFunction::TestFrCon)));
    let f1 = reader.try_parse().unwrap().unwrap();
    let f2 = reader.try_parse().unwrap().unwrap();
    assert_eq!(f1, Apdu::U(UFunction::TestFrAct));
    assert_eq!(f2, Apdu::U(UFunction::TestFrCon));
}

#[test]
fn apci_try_parse_returns_none_on_empty() {
    let mut reader = FrameReader::new();
    assert!(reader.try_parse().unwrap().is_none());
}

#[test]
fn try_parse_returns_none_on_partial() {
    let mut reader = FrameReader::new();
    // Only the start byte and length, but not the full body
    reader.push_bytes(&[0x68, 0x04]);
    assert!(reader.try_parse().unwrap().is_none());
    // Data still in buffer for next read
    assert_eq!(reader.buffered_len(), 2);
}

#[test]
fn apci_wire_bytes() {
    assert_eq!(encode_apdu(&Apdu::U(UFunction::StartDtAct)), vec![0x68, 0x04, 0x07, 0x00, 0x00, 0x00]);
    assert_eq!(encode_apdu(&Apdu::S { recv_seq: 3 }), vec![0x68, 0x04, 0x01, 0x00, 0x06, 0x00]);
    let i = Apdu::I { send_seq: 0x100, recv_seq: 1, payload: Bytes::from_static(&[0xAA]) };
    assert_eq!(encode_apdu(&i), vec![0x68, 0x05, 0x00, 0x02, 0x02, 0x00, 0xAA]);
}

#[test]
fn apci_length_errors() {
    let mut reader = FrameReader::new();
    reader.push_bytes(&[0x68, 0x03, 0x68, 0xFE]);
    assert!(matches!(reader.try_parse().unwrap_err(), FrameError::LengthTooShort(3)));
    assert_eq!(reader.buffered_len(), 2);
    assert!(matches!(
        reader.try_parse().unwrap_err(),
        FrameError::LengthExceeded { length: 254, max: 253 }
    ));
    assert_eq!(reader.buffered_len(), 0);
}

#[test]
fn apci_unknown_u_function() {
    let mut reader = FrameReader::new();
    reader.push_bytes(&[0x68, 0x04, 0x0F, 0x00, 0x00, 0x00]);
    assert!(matches!(reader.try_parse().unwrap_err(), FrameError::UnknownUFunction(0x0F)));
    // the header is dropped, the control field stays
    assert_eq!(reader.buffered_len(), 4);
}

#[test]
fn u_function_bytes() {
    assert_eq!(UFunction::TestFrCon.to_byte(), 0x83);
    assert_eq!(UFunction::from_byte(0x13), Some(UFunction::StopDtAct));
    assert_eq!(UFunction::from_byte(0x01), None);
}

// --- FT 1.2 ---

#[test]
fn roundtrip_single_ack() {
    let decoded = write_and_read_link(&LinkFrame::SingleAck, 1);
    assert_eq!(decoded, LinkFrame::SingleAck);
}

#[test]
fn roundtrip_fixed_primary_1byte_addr() {
    let frame = LinkFrame::Fixed {
        control: ControlField::Primary { fcb: true, fcv: false, function: PrimaryFunction::ResetLink },
        address: LinkAddress(5),
    };
    assert_eq!(write_and_read_link(&frame, 1), frame);
}

#[test]
fn roundtrip_fixed_primary_2byte_addr() {
    let frame = LinkFrame::Fixed {
        control: ControlField::Primary {
            fcb: false,
            fcv: true,
            function: PrimaryFunction::RequestLinkStatus,
        },
        address: LinkAddress(0x0102),
    };
    assert_eq!(write_and_read_link(&frame, 2), frame);
}

#[test]
fn roundtrip_fixed_secondary() {
    let frame = LinkFrame::Fixed {
        control: ControlField::Secondary { acd: true, dfc: false, function: SecondaryFunction::Ack },
        address: LinkAddress(1),
    };
    assert_eq!(write_and_read_link(&frame, 1), frame);
}

#[test]
fn roundtrip_variable_1byte_addr() {
    let frame = LinkFrame::Variable {
        control: ControlField::Primary { fcb: true, fcv: true, function: PrimaryFunction::SendConfirm },
        address: LinkAddress(10),
        data: Bytes::from_static(&[0x01, 0x02, 0x03, 0x04]),
    };
    assert_eq!(write_and_read_link(&frame, 1), frame);
}

#[test]
fn roundtrip_variable_2byte_addr() {
    let frame = LinkFrame::Variable {
        control: ControlField::Secondary { acd: false, dfc: false, function: SecondaryFunction::UserData },
        address: LinkAddress(0x1234),
        data: Bytes::from_static(&[0xAA, 0xBB, 0xCC]),
    };
    assert_eq!(write_and_read_link(&frame, 2), frame);
}

#[test]
fn roundtrip_variable_empty_data() {
    let frame = LinkFrame::Variable {
        control: ControlField::Secondary { acd: true, dfc: true, function: SecondaryFunction::NoData },
        address: LinkAddress(0),
        data: Bytes::new(),
    };
    assert_eq!(write_and_read_link(&frame, 1), frame);
}

#[test]
fn ft12_invalid_start_byte() {
    let mut parser = LinkFrameParser::new(1);
    parser.push_bytes(&[0x99]);
    let err = parser.try_parse().unwrap_err();
    assert!(matches!(err, LinkError::InvalidStartByte(0x99)));
}

#[test]
fn checksum_verification() {
    let cf = ControlField::Primary { fcb: false, fcv: false, function: PrimaryFunction::ResetLink }
        .to_byte();
    let addr: u8 = 1;
    let bad_cs: u8 = 0xFF;
    let mut parser = LinkFrameParser::new(1);
    parser.push_bytes(&[0x10, cf, addr, bad_cs, 0x16]);
    let err = parser.try_parse().unwrap_err();
    assert!(matches!(err, LinkError::ChecksumMismatch { .. }));
}

#[test]
fn ft12_multiple_frames_in_buffer() {
    let f1 = LinkFrame::SingleAck;
    let f2 = LinkFrame::Fixed {
        control: ControlField::Secondary { acd: false, dfc: false, function: SecondaryFunction::Ack },
        address: LinkAddress(1),
    };
    let mut parser = LinkFrameParser::new(1);
    parser.push_bytes(&encode_link_frame(&f1, 1));
    parser.push_bytes(&encode_link_frame(&f2, 1));
    assert_eq!(parser.try_parse().unwrap().unwrap(), f1);
    assert_eq!(parser.try_parse().unwrap().unwrap(), f2);
}

#[test]
fn control_field_roundtrip() {
    let cases = vec![
        ControlField::Primary { fcb: false, fcv: false, function: PrimaryFunction::ResetLink },
        ControlField::Primary { fcb: true, fcv: true, function: PrimaryFunction::SendConfirm },
        ControlField::Primary { fcb: true, fcv: true, function: PrimaryFunction::RequestClass1 },
        ControlField::Secondary { acd: true, dfc: false, function: SecondaryFunction::Ack },
        ControlField::Secondary { acd: false, dfc: true, function: SecondaryFunction::UserData },
    ];
    for cf in cases {
        let byte = cf.to_byte();
        let parsed = ControlField::from_byte(byte).unwrap();
        assert_eq!(cf, parsed, "roundtrip failed for byte 0x{:02X}", byte);
    }
}

#[test]
fn ft12_try_parse_returns_none_on_empty() {
    let mut parser = LinkFrameParser::new(1);
    assert!(parser.try_parse().unwrap().is_none());
}

#[test]
fn try_parse_returns_none_on_partial_fixed() {
    let mut parser = LinkFrameParser::new(1);
    parser.push_bytes(&[0x10, 0x40]);
    assert!(parser.try_parse().unwrap().is_none());
    assert_eq!(parser.buffered_len(), 2);
}

#[test]
fn try_parse_returns_none_on_partial_variable() {
    let mut parser = LinkFrameParser::new(1);
    parser.push_bytes(&[0x68, 0x05, 0x05, 0x68]);
    assert!(parser.try_parse().unwrap().is_none());
    assert_eq!(parser.buffered_len(), 4);
}

#[test]
fn checksum_is_byte_sum() {
    assert_eq!(checksum(&[]), 0);
    assert_eq!(checksum(&[0x40, 0x01]), 0x41);
    assert_eq!(checksum(&[0xFF, 0x02]), 0x01);
}

#[test]
fn control_byte_values() {
    let cf = ControlField::Primary { fcb: true, fcv: true, function: PrimaryFunction::RequestClass2 };
    assert_eq!(cf.to_byte(), 0x7B);
    let cf = ControlField::Secondary { acd: true, dfc: false, function: SecondaryFunction::LinkStatus };
    assert_eq!(cf.to_byte(), 0x2B);
    assert!(matches!(ControlField::from_byte(0x45), Err(LinkError::UnknownPrimaryFunction(5))));
    assert!(matches!(ControlField::from_byte(0x02), Err(LinkError::UnknownSecondaryFunction(2))));
}

#[test]
fn fixed_frame_wire_bytes() {
    let frame = LinkFrame::Fixed {
        control: ControlField::Primary { fcb: false, fcv: false, function: PrimaryFunction::ResetLink },
        address: LinkAddress(0x0102),
    };
    assert_eq!(encode_link_frame(&frame, 2), vec![0x10, 0x40, 0x02, 0x01, 0x43, 0x16]);
}

#[test]
fn variable_frame_errors() {
    let mut parser = LinkFrameParser::new(1);
    parser.push_bytes(&[0x68, 0x05, 0x06, 0x68]);
    assert!(matches!(parser.try_parse().unwrap_err(), LinkError::LengthMismatch { l1: 5, l2: 6 }));
    assert_eq!(parser.buffered_len(), 3);

    let mut parser = LinkFrameParser::new(2);
    parser.push_bytes(&[0x68, 0x02, 0x02, 0x68]);
    assert!(matches!(parser.try_parse().unwrap_err(), LinkError::LengthTooShort(2)));
    assert_eq!(parser.buffered_len(), 0);

    // the second start byte is checked once the frame is complete
    let mut parser = LinkFrameParser::new(1);
    parser.push_bytes(&[0x68, 0x02, 0x02, 0x67, 0x40, 0x01, 0x41, 0x16]);
    assert!(matches!(parser.try_parse().unwrap_err(), LinkError::InvalidStartByte(0x67)));
}
