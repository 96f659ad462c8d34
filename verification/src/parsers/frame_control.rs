use vstd::prelude::*;
use vstd::slice::slice_subrange;

use crate::components::FrameControl;
use crate::frame_types::FrameSubType;
use crate::frame_types::FrameType;

verus! {

/// The decoder's only failure: fewer than two bytes were available, so no
/// Frame Control field could be read. A truncated input, not a malformed one.
#[derive(Debug, Clone, Copy, PartialEq, Eq, Structural)]
pub enum DecodeError {
    InsufficientData,
}

/// 2-bit protocol version: bits 0-1 of the first byte.
pub open spec fn spec_protocol_version(b0: u8) -> u8 {
    b0 & 0x03
}

/// 2-bit frame type code: bits 2-3 of the first byte.
pub open spec fn spec_type_code(b0: u8) -> u8 {
    (b0 >> 2) & 0x03
}

/// 4-bit sub-type code: bits 4-7 of the first byte, right-shifted to a
/// nibble value.
pub open spec fn spec_subtype_code(b0: u8) -> u8 {
    (b0 >> 4) & 0x0f
}

/// The fixed classification of the 2-bit type code.
pub open spec fn spec_frame_type(code: u8) -> FrameType {
    if code == 0 {
        FrameType::Management
    } else if code == 1 {
        FrameType::Control
    } else if code == 2 {
        FrameType::Data
    } else {
        FrameType::Unknown
    }
}

/// Classifies the 2-bit frame type code: 0 is Management, 1 is Control,
/// 2 is Data, and every other code is Unknown. Total over its input; no
/// error path.
pub fn parse_frame_type(code: u8) -> (t: FrameType)
    ensures
        t == spec_frame_type(code),
{
    match code {
        0 => FrameType::Management,
        1 => FrameType::Control,
        2 => FrameType::Data,
        _ => FrameType::Unknown,
    }
}

/// The management-family sub-type table, indexed by the 4-bit code. Codes
/// 6, 7 and 13-15 are outside this table's scope.
pub open spec fn spec_management_subtype(code: u8) -> FrameSubType {
    if code == 0 {
        FrameSubType::AssoReq
    } else if code == 1 {
        FrameSubType::AssoResp
    } else if code == 2 {
        FrameSubType::ReassoReq
    } else if code == 3 {
        FrameSubType::ReassoResp
    } else if code == 4 {
        FrameSubType::ProbeReq
    } else if code == 5 {
        FrameSubType::ProbeResp
    } else if code == 8 {
        FrameSubType::Beacon
    } else if code == 9 {
        FrameSubType::Atim
    } else if code == 10 {
        FrameSubType::Disasso
    } else if code == 11 {
        FrameSubType::Auth
    } else if code == 12 {
        FrameSubType::Deauth
    } else {
        FrameSubType::UnHandled
    }
}

/// The control-family sub-type table, indexed by the 4-bit code. Codes 0
/// and 1 are reserved by the standard.
pub open spec fn spec_control_subtype(code: u8) -> FrameSubType {
    if code == 0 {
        FrameSubType::Reserved
    } else if code == 1 {
        FrameSubType::Reserved
    } else if code == 2 {
        FrameSubType::Trigger
    } else if code == 3 {
        FrameSubType::Tack
    } else if code == 4 {
        FrameSubType::BeamformingReportPoll
    } else if code == 5 {
        FrameSubType::NdpAnnouncement
    } else if code == 6 {
        FrameSubType::ControlFrameExtension
    } else if code == 7 {
        FrameSubType::ControlWrapper
    } else if code == 8 {
        FrameSubType::BlockAckRequest
    } else if code == 9 {
        FrameSubType::BlockAck
    } else if code == 10 {
        FrameSubType::PsPoll
    } else if code == 11 {
        FrameSubType::Rts
    } else if code == 12 {
        FrameSubType::Cts
    } else if code == 13 {
        FrameSubType::Ack
    } else if code == 14 {
        FrameSubType::CfEnd
    } else if code == 15 {
        FrameSubType::CfEndCfAck
    } else {
        FrameSubType::UnHandled
    }
}

/// The data-family sub-type table, indexed by the 4-bit code. Code 13 is
/// reserved by the standard; codes 9, 14 and 15 are outside this table's
/// scope.
pub open spec fn spec_data_subtype(code: u8) -> FrameSubType {
    if code == 0 {
        FrameSubType::Data
    } else if code == 1 {
        FrameSubType::DataCfAck
    } else if code == 2 {
        FrameSubType::DataCfPull
    } else if code == 3 {
        FrameSubType::DataCfAckCfPull
    } else if code == 4 {
        FrameSubType::NullData
    } else if code == 5 {
        FrameSubType::CfAck
    } else if code == 6 {
        FrameSubType::CfPull
    } else if code == 7 {
        FrameSubType::CfAckCfPull
    } else if code == 8 {
        FrameSubType::QoS
    } else if code == 10 {
        FrameSubType::QoSCfPull
    } else if code == 11 {
        FrameSubType::QoSCfAckCfPull
    } else if code == 12 {
        FrameSubType::QoSNullData
    } else if code == 13 {
        FrameSubType::Reserved
    } else {
        FrameSubType::UnHandled
    }
}

/// The sub-type of a frame, selected by its classified type: each of the
/// three families consults its own table, and an Unknown frame type yields
/// UnHandled without consulting any table.
pub open spec fn spec_subtype(frame_type: FrameType, code: u8) -> FrameSubType {
    match frame_type {
        FrameType::Management => spec_management_subtype(code),
        FrameType::Control => spec_control_subtype(code),
        FrameType::Data => spec_data_subtype(code),
        FrameType::Unknown => FrameSubType::UnHandled,
    }
}

/// Looks up the 4-bit sub-type code in the management-family table. Total
/// over its input; codes this table does not name map to UnHandled.
pub fn management_frame_subtype(code: u8) -> (s: FrameSubType)
    ensures
        s == spec_management_subtype(code),
{
    match code {
        0 => FrameSubType::AssoReq,
        1 => FrameSubType::AssoResp,
        2 => FrameSubType::ReassoReq,
        3 => FrameSubType::ReassoResp,
        4 => FrameSubType::ProbeReq,
        5 => FrameSubType::ProbeResp,
        8 => FrameSubType::Beacon,
        9 => FrameSubType::Atim,
        10 => FrameSubType::Disasso,
        11 => FrameSubType::Auth,
        12 => FrameSubType::Deauth,
        _ => FrameSubType::UnHandled,
    }
}

/// Looks up the 4-bit sub-type code in the control-family table. Total
/// over its input; reserved codes map to Reserved, never to an error.
pub fn control_frame_subtype(code: u8) -> (s: FrameSubType)
    ensures
        s == spec_control_subtype(code),
{
    match code {
        0 => FrameSubType::Reserved,
        1 => FrameSubType::Reserved,
        2 => FrameSubType::Trigger,
        3 => FrameSubType::Tack,
        4 => FrameSubType::BeamformingReportPoll,
        5 => FrameSubType::NdpAnnouncement,
        6 => FrameSubType::ControlFrameExtension,
        7 => FrameSubType::ControlWrapper,
        8 => FrameSubType::BlockAckRequest,
        9 => FrameSubType::BlockAck,
        10 => FrameSubType::PsPoll,
        11 => FrameSubType::Rts,
        12 => FrameSubType::Cts,
        13 => FrameSubType::Ack,
        14 => FrameSubType::CfEnd,
        15 => FrameSubType::CfEndCfAck,
        _ => FrameSubType::UnHandled,
    }
}

/// Looks up the 4-bit sub-type code in the data-family table. Total over
/// its input; the reserved code maps to Reserved, unnamed codes to
/// UnHandled, never to an error.
pub fn data_frame_subtype(code: u8) -> (s: FrameSubType)
    ensures
        s == spec_data_subtype(code),
{
    match code {
        0 => FrameSubType::Data,
        1 => FrameSubType::DataCfAck,
        2 => FrameSubType::DataCfPull,
        3 => FrameSubType::DataCfAckCfPull,
        4 => FrameSubType::NullData,
        5 => FrameSubType::CfAck,
        6 => FrameSubType::CfPull,
        7 => FrameSubType::CfAckCfPull,
        8 => FrameSubType::QoS,
        10 => FrameSubType::QoSCfPull,
        11 => FrameSubType::QoSCfAckCfPull,
        12 => FrameSubType::QoSNullData,
        13 => FrameSubType::Reserved,
        _ => FrameSubType::UnHandled,
    }
}

/// Under an Unknown frame type the sub-type is UnHandled, whatever the
/// 4-bit code holds.
pub proof fn lemma_unknown_type_unhandled(code: u8)
    ensures
        spec_subtype(FrameType::Unknown, code) == FrameSubType::UnHandled,
{
}

/// The fixed classification of the 2-bit type code, spelled out over all
/// four possible code values.
pub proof fn lemma_frame_type_mapping()
    ensures
        spec_frame_type(0) == FrameType::Management,
        spec_frame_type(1) == FrameType::Control,
        spec_frame_type(2) == FrameType::Data,
        spec_frame_type(3) == FrameType::Unknown,
{
}

/// The four subfields of a two-byte Frame Control window, in field order:
/// protocol version, type code, sub-type code, flags byte.
pub open spec fn spec_bit_fields(b0: u8, b1: u8) -> (u8, u8, u8, u8) {
    (spec_protocol_version(b0), spec_type_code(b0), spec_subtype_code(b0), b1)
}

/// Packs four subfield values back into the two bytes they came from.
pub open spec fn spec_reassemble(fields: (u8, u8, u8, u8)) -> (u8, u8) {
    (((fields.2 << 4) | (fields.1 << 2)) | fields.0, fields.3)
}

/// Round trip of the bit layout: the four subfields extracted from any
/// two-byte window reassemble to exactly the original two bytes.
pub proof fn lemma_bit_fields_round_trip(b0: u8, b1: u8)
    ensures
        spec_reassemble(spec_bit_fields(b0, b1)) == (b0, b1),
{
    assert(((((b0 >> 4) & 0x0f) << 4) | (((b0 >> 2) & 0x03) << 2)) | (b0 & 0x03) == b0)
        by (bit_vector);
}

/// Reads the fixed 16-bit window at the start of the input and splits it
/// into the four subfields, consuming exactly two bytes. On an input
/// shorter than two bytes it reports InsufficientData and consumes
/// nothing: no partial extraction is ever returned.
pub fn parse_bit_fields(input: &[u8]) -> (r: Result<(&[u8], (u8, u8, u8, u8)), DecodeError>)
    ensures
        input@.len() < 2 ==> (r matches Err(e) && e == DecodeError::InsufficientData),
        input@.len() >= 2 ==> (r matches Ok(p) && p.0@ == input@.subrange(2, input@.len() as int)
            && p.1 == spec_bit_fields(input@[0], input@[1])),
{
    if input.len() < 2 {
        return Err(DecodeError::InsufficientData);
    }
    let b0 = input[0];
    let b1 = input[1];
    let rest = slice_subrange(input, 2, input.len());
    let protocol_version = b0 & 0x03;
    let type_code = (b0 >> 2) & 0x03;
    let subtype_code = (b0 >> 4) & 0x0f;
    Ok((rest, (protocol_version, type_code, subtype_code, b1)))
}

/// The record decoded from a two-byte Frame Control window: each subfield
/// extracted by its bit position, the type code classified, and the
/// sub-type code classified under the table that the type selects.
pub open spec fn spec_frame_control(b0: u8, b1: u8) -> FrameControl {
    FrameControl {
        protocol_version: spec_protocol_version(b0),
        frame_type: spec_frame_type(spec_type_code(b0)),
        frame_subtype: spec_subtype(spec_frame_type(spec_type_code(b0)), spec_subtype_code(b0)),
        flags: b1,
    }
}

/// Decodes the Frame Control field at the start of the input: consumes
/// exactly two bytes, returns the decoded record together with the
/// unconsumed remainder, and is deterministic in the two bytes read. The
/// one failure is an input shorter than two bytes, reported as
/// InsufficientData with nothing consumed and no partial record.
pub fn parse_frame_control(input: &[u8]) -> (r: Result<(&[u8], FrameControl), DecodeError>)
    ensures
        input@.len() < 2 ==> (r matches Err(e) && e == DecodeError::InsufficientData),
        input@.len() >= 2 ==> (r matches Ok(p) && p.0@ == input@.subrange(2, input@.len() as int)
            && p.1 == spec_frame_control(input@[0], input@[1])),
{
    let (rest, fields) = match parse_bit_fields(input) {
        Ok(p) => p,
        Err(e) => {
            return Err(e);
        },
    };
    let (protocol_version, type_code, subtype_code, flags) = fields;
    let frame_type = parse_frame_type(type_code);
    let frame_subtype = match frame_type {
        FrameType::Management => management_frame_subtype(subtype_code),
        FrameType::Control => control_frame_subtype(subtype_code),
        FrameType::Data => data_frame_subtype(subtype_code),
        FrameType::Unknown => FrameSubType::UnHandled,
    };
    Ok((rest, FrameControl { protocol_version, frame_type, frame_subtype, flags }))
}

} // verus!
