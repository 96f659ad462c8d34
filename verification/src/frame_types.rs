use vstd::prelude::*;

verus! {

/// Top-level 802.11 frame category, read from the 2-bit type code of the
/// Frame Control field. `Unknown` is the defined image of the fourth code
/// value, a valid outcome rather than an error.
#[derive(Debug, Clone, Copy, PartialEq, Eq, Structural)]
pub enum FrameType {
    Management,
    Control,
    Data,
    Unknown,
}

/// Fine-grained frame classification within a frame type, read from the
/// 4-bit sub-type code. The set is flat across the three families;
/// `Reserved` marks codes the standard defines but leaves unassigned, and
/// `UnHandled` marks codes outside this table's scope (or any code under an
/// `Unknown` frame type).
#[derive(Debug, Clone, Copy, PartialEq, Eq, Structural)]
pub enum FrameSubType {
    // Management family
    AssoReq,
    AssoResp,
    ReassoReq,
    ReassoResp,
    ProbeReq,
    ProbeResp,
    Beacon,
    Atim,
    Disasso,
    Auth,
    Deauth,
    // Control family
    Trigger,
    Tack,
    BeamformingReportPoll,
    NdpAnnouncement,
    ControlFrameExtension,
    ControlWrapper,
    BlockAckRequest,
    BlockAck,
    PsPoll,
    Rts,
    Cts,
    Ack,
    CfEnd,
    CfEndCfAck,
    // Data family
    Data,
    DataCfAck,
    DataCfPull,
    DataCfAckCfPull,
    NullData,
    CfAck,
    CfPull,
    CfAckCfPull,
    QoS,
    QoSCfPull,
    QoSCfAckCfPull,
    QoSNullData,
    // Sentinels
    Reserved,
    UnHandled,
}

} // verus!
