use frame_control::parsers::frame_control::control_frame_subtype;
use frame_control::parsers::frame_control::data_frame_subtype;
use frame_control::parsers::frame_control::management_frame_subtype;
use frame_control::parsers::frame_control::parse_bit_fields;
use frame_control::parsers::frame_control::parse_frame_type;
use frame_control::parse_frame_control;
use frame_control::DecodeError;
use frame_control::FrameSubType;
use frame_control::FrameType;

#[test]
fn beacon_frame() {
    let input: [u8; 2] = [0b1000_0000, 0b0000_0000];
    let (rest, fc) = parse_frame_control(&input).unwrap();
    assert!(rest.is_empty());
    assert_eq!(fc.protocol_version, 0);
    assert_eq!(fc.frame_type, FrameType::Management);
    assert_eq!(fc.frame_subtype, FrameSubType::Beacon);
    assert_eq!(fc.flags, 0);
}

#[test]
fn rts_frame() {
    let input: [u8; 2] = [0b1011_0100, 0b0000_0001];
    let (rest, fc) = parse_frame_control(&input).unwrap();
    assert!(rest.is_empty());
    assert_eq!(fc.protocol_version, 0);
    assert_eq!(fc.frame_type, FrameType::Control);
    assert_eq!(fc.frame_subtype, FrameSubType::Rts);
    assert_eq!(fc.flags, 1);
}

#[test]
fn qos_data_frame() {
    let input: [u8; 2] = [0b1000_1000, 0xFF];
    let (rest, fc) = parse_frame_control(&input).unwrap();
    assert!(rest.is_empty());
    assert_eq!(fc.protocol_version, 0);
    assert_eq!(fc.frame_type, FrameType::Data);
    assert_eq!(fc.frame_subtype, FrameSubType::QoS);
    assert_eq!(fc.flags, 0xFF);
}

#[test]
fn one_byte_is_insufficient() {
    let input: [u8; 1] = [0x00];
    assert_eq!(parse_frame_control(&input), Err(DecodeError::InsufficientData));
}

#[test]
fn empty_input_is_insufficient() {
    let input: [u8; 0] = [];
    assert_eq!(parse_frame_control(&input), Err(DecodeError::InsufficientData));
    assert_eq!(parse_bit_fields(&input), Err(DecodeError::InsufficientData));
}

#[test]
fn remainder_is_returned_unconsumed() {
    let input: [u8; 5] = [0b1000_0000, 0x00, 0xAA, 0xBB, 0xCC];
    let (rest, fc) = parse_frame_control(&input).unwrap();
    assert_eq!(rest, &[0xAA, 0xBB, 0xCC]);
    assert_eq!(fc.frame_subtype, FrameSubType::Beacon);
}

#[test]
fn frame_type_mapping_is_fixed() {
    assert_eq!(parse_frame_type(0), FrameType::Management);
    assert_eq!(parse_frame_type(1), FrameType::Control);
    assert_eq!(parse_frame_type(2), FrameType::Data);
    assert_eq!(parse_frame_type(3), FrameType::Unknown);
}

#[test]
fn unknown_type_always_unhandled() {
    // Type bits 2-3 set to 11 make the type Unknown, whatever the nibble.
    for subtype_code in 0u8..16 {
        let b0 = (subtype_code << 4) | 0b1100;
        let (_, fc) = parse_frame_control(&[b0, 0x00]).unwrap();
        assert_eq!(fc.frame_type, FrameType::Unknown);
        assert_eq!(fc.frame_subtype, FrameSubType::UnHandled);
    }
}

#[test]
fn management_subtype_table() {
    let expected: [FrameSubType; 16] = [
        FrameSubType::AssoReq,
        FrameSubType::AssoResp,
        FrameSubType::ReassoReq,
        FrameSubType::ReassoResp,
        FrameSubType::ProbeReq,
        FrameSubType::ProbeResp,
        FrameSubType::UnHandled,
        FrameSubType::UnHandled,
        FrameSubType::Beacon,
        FrameSubType::Atim,
        FrameSubType::Disasso,
        FrameSubType::Auth,
        FrameSubType::Deauth,
        FrameSubType::UnHandled,
        FrameSubType::UnHandled,
        FrameSubType::UnHandled,
    ];
    for code in 0u8..16 {
        assert_eq!(management_frame_subtype(code), expected[code as usize]);
    }
}

#[test]
fn control_subtype_table() {
    let expected: [FrameSubType; 16] = [
        FrameSubType::Reserved,
        FrameSubType::Reserved,
        FrameSubType::Trigger,
        FrameSubType::Tack,
        FrameSubType::BeamformingReportPoll,
        FrameSubType::NdpAnnouncement,
        FrameSubType::ControlFrameExtension,
        FrameSubType::ControlWrapper,
        FrameSubType::BlockAckRequest,
        FrameSubType::BlockAck,
        FrameSubType::PsPoll,
        FrameSubType::Rts,
        FrameSubType::Cts,
        FrameSubType::Ack,
        FrameSubType::CfEnd,
        FrameSubType::CfEndCfAck,
    ];
    for code in 0u8..16 {
        assert_eq!(control_frame_subtype(code), expected[code as usize]);
    }
}

#[test]
fn data_subtype_table() {
    let expected: [FrameSubType; 16] = [
        FrameSubType::Data,
        FrameSubType::DataCfAck,
        FrameSubType::DataCfPull,
        FrameSubType::DataCfAckCfPull,
        FrameSubType::NullData,
        FrameSubType::CfAck,
        FrameSubType::CfPull,
        FrameSubType::CfAckCfPull,
        FrameSubType::QoS,
        FrameSubType::UnHandled,
        FrameSubType::QoSCfPull,
        FrameSubType::QoSCfAckCfPull,
        FrameSubType::QoSNullData,
        FrameSubType::Reserved,
        FrameSubType::UnHandled,
        FrameSubType::UnHandled,
    ];
    for code in 0u8..16 {
        assert_eq!(data_frame_subtype(code), expected[code as usize]);
    }
}

#[test]
fn bit_fields_round_trip_all_first_bytes() {
    for b0 in 0u8..=255 {
        for b1 in [0x00u8, 0x5A, 0xFF] {
            let input: [u8; 2] = [b0, b1];
            let (rest, fields) = parse_bit_fields(&input).unwrap();
            assert!(rest.is_empty());
            let (protocol_version, type_code, subtype_code, flags) = fields;
            assert_eq!((subtype_code << 4) | (type_code << 2) | protocol_version, b0);
            assert_eq!(flags, b1);
        }
    }
}

#[test]
fn bit_fields_of_a_mixed_byte() {
    // 0b1011_0100: nibble 1011 = sub-type 11, bits 2-3 = 01, bits 0-1 = 00.
    let (_, fields) = parse_bit_fields(&[0b1011_0100, 0x42]).unwrap();
    assert_eq!(fields, (0, 1, 11, 0x42));
}

#[test]
fn protocol_version_uses_low_two_bits() {
    for protocol_version in 0u8..4 {
        let (_, fc) = parse_frame_control(&[protocol_version, 0x00]).unwrap();
        assert_eq!(fc.protocol_version, protocol_version);
        assert_eq!(fc.frame_type, FrameType::Management);
        assert_eq!(fc.frame_subtype, FrameSubType::AssoReq);
    }
}
