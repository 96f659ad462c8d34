use vstd::prelude::*;

use crate::frame_types::FrameSubType;
use crate::frame_types::FrameType;

verus! {

/// Decoded Frame Control field of an 802.11 MAC header: the four subfields
/// of its two bytes, with the type and sub-type codes already classified.
/// Immutable once constructed; owned by the caller of the decoder.
#[derive(Debug, Clone, Copy, PartialEq, Eq, Structural)]
pub struct FrameControl {
    /// 2-bit protocol version (bits 0-1 of the first byte).
    pub protocol_version: u8,
    /// Frame category, classified from the 2-bit type code (bits 2-3).
    pub frame_type: FrameType,
    /// Sub-type, classified from the 4-bit code (bits 4-7) under the table
    /// that `frame_type` selects.
    pub frame_subtype: FrameSubType,
    /// The second byte, a bitmask left uninterpreted by this decoder.
    pub flags: u8,
}

} // verus!
