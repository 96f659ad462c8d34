//! Decoder for the 16-bit Frame Control field that prefixes every 802.11 MAC
//! frame. The field is split into protocol version, frame type, frame
//! sub-type and a flags byte; the type and sub-type codes are classified
//! against the standard's lookup tables.

pub mod components;
pub mod frame_types;
pub mod parsers;

pub use crate::components::FrameControl;
pub use crate::frame_types::FrameSubType;
pub use crate::frame_types::FrameType;
pub use crate::parsers::frame_control::DecodeError;
pub use crate::parsers::frame_control::parse_frame_control;
