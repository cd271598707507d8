//! What the network layer hands up: indications of data, joins and
//! leaves, and its errors.
use vstd::prelude::*;

use crate::collections::Vec;
use crate::common::{ExtendedAddress, NwkAddress};
use crate::mac::MacCapabilities;
use crate::nwk::constants::MAX_NWK_PAYLOAD_SIZE;
use crate::nwk::commands::NetworkStatus;
use crate::nwk::frame::NwkDataFrame;

verus! {

/// Any error in handling a request to the network layer.
#[derive(Clone, Copy, Debug, PartialEq, Eq, Structural)]
pub enum NldeTransferError {
    InvalidRequest,
    MaxFrameCounter,
    BadCcmOutput,
    RouteError,
    BtTableFull,
    FrameNotBuffered,
}

/// Where a data frame was sent to.
#[derive(Clone, Copy, Debug, PartialEq, Eq, Structural)]
pub enum NldeDataIndicationDstAddress {
    Multicast(NwkAddress),
    UnicastOrBroadcast(NwkAddress),
}

/// What the network layer tells the next higher layer.
pub enum NwkIndication {
    Data(NldeDataIndication),
    Join(NlmeJoinIndication),
    Leave(NlmeLeaveIndication),
    Status(NetworkStatus),
    DutyCycle(NlmeDutyCycleModeIndication),
    SyncLoss,
}

/// Data for the next higher layer.
pub struct NldeDataIndication {
    pub dst_address: NldeDataIndicationDstAddress,
    pub src_address: NwkAddress,
    pub nsdu: Vec<u8, MAX_NWK_PAYLOAD_SIZE>,
    pub link_quality: u8,
    pub security_use: bool,
}

/// How a device joined.
#[derive(Clone, Copy, Debug, PartialEq, Eq, Structural)]
pub enum JoinMethod {
    Association(MacCapabilities),
    Direct,
    Rejoin { secure: bool },
}

/// A device joined this one.
#[derive(Clone, Copy, Debug, PartialEq, Eq, Structural)]
pub struct NlmeJoinIndication {
    pub nwk_addr: NwkAddress,
    pub ext_addr: ExtendedAddress,
    pub join_method: JoinMethod,
}

/// What a leave command asks of this device: to leave the network, or
/// that its parent left.
#[derive(Clone, Copy, Debug, PartialEq, Eq, Structural)]
pub enum NlmeLeaveIndication {
    /// This device is to leave the network.
    LeaveSelf { rejoin: bool },
    /// This device's parent left.
    LeaveParent { rejoin: bool },
}

/// How much of its duty cycle the radio has used.
#[derive(Clone, Copy, Debug, PartialEq, Eq, Structural)]
pub enum DutyCycleStatus {
    Normal,
    Limited,
    Critical,
    Suspended,
}

/// The duty cycle mode changed.
#[derive(Clone, Copy, Debug, PartialEq, Eq, Structural)]
pub struct NlmeDutyCycleModeIndication {
    pub interface_index: u8,
    pub status: DutyCycleStatus,
}

/// The data indication for a data frame received with the link quality
/// `link_quality`: to the group where the header has multicast control, to
/// the address otherwise, with the frame's source and payload.
pub fn return_data_indication(frame: &NwkDataFrame, link_quality: u8, use_security: bool) -> (r: NldeDataIndication)
    ensures
        r.dst_address == (if frame.header.multicast_control is Some {
            NldeDataIndicationDstAddress::Multicast(frame.header.destination)
        } else {
            NldeDataIndicationDstAddress::UnicastOrBroadcast(frame.header.destination)
        }),
        r.src_address == frame.header.source,
        r.nsdu@ == frame.payload@,
        r.link_quality == link_quality,
        r.security_use == use_security,
{
    let hdr = &frame.header;
    NldeDataIndication {
        dst_address: if hdr.multicast_control.is_some() {
            NldeDataIndicationDstAddress::Multicast(hdr.destination)
        } else {
            NldeDataIndicationDstAddress::UnicastOrBroadcast(hdr.destination)
        },
        src_address: hdr.source,
        nsdu: frame.payload.copy(),
        link_quality,
        security_use: use_security,
    }
}

} // verus!
