use zigbee::collections::Vec;
use zigbee::common::{DeviceType, ExtendedAddress, NwkAddress, PanId};
use zigbee::mac::MacAddress;
use zigbee::nwk::commands::{DeviceTimeout, EndDeviceTimeoutResponseStatus, ParentInformation};
use zigbee::nwk::commands::Leave;
use zigbee::nwk::emission::{end_device_timeout_request_frame, end_device_timeout_response_frame, leave_frame};
use zigbee::nwk::frame::header::{FrameType, HeaderContext, NwkHeader};
use zigbee::nwk::frame::NwkFrame;
use zigbee::nwk::nib::{AddressMap, NeighborRelationship, NewNwkNeighbour, NwkNeighbor};
use zigbee::nwk::nlde::{NldeDataIndicationDstAddress, NlmeLeaveIndication, NwkIndication};
use zigbee::nwk::router::{end_device_handle_frame, process_incoming_frame, EndDeviceReception, GroupTable};
use zigbee::stack_profile::SecurityLevel;

const DEFAULT_NWK_ADDR: NwkAddress = NwkAddress(0x1234);
const DEFAULT_EXT_ADDR: ExtendedAddress = ExtendedAddress(0x1234_5678_90ab_cdef);
const PARENT_NWK_ADDR: NwkAddress = NwkAddress(0x0000);
const PARENT_EXT_ADDR: ExtendedAddress = ExtendedAddress(0x0011_2233_4455_6677);

const PAYLOAD: [u8; 17] = [0x0, 0x1, 0x4, 0xb, 0x4, 0x1, 0x1, 0x56, 0x10, 0xae, 0x0, 0x5, 0x5, 0x8, 0x5, 0xb, 0x5];

fn ctx() -> HeaderContext {
    HeaderContext { addr: DEFAULT_NWK_ADDR, ext_addr: DEFAULT_EXT_ADDR, max_depth: 15, seq_number: 0 }
}

fn data_header(c: &mut HeaderContext, destination: NwkAddress, security: bool) -> NwkHeader {
    NwkHeader::new(c, FrameType::Data, security, false, destination, None, None, None, Some(NwkAddress(0)), None, None)
}

/// Runs a received frame through the end device's reception steps: the
/// frame came from its parent, on an authorized, secured network.
fn receive_as_end_device(mut frame: NwkFrame, parent_information: &mut ParentInformation) -> Option<NwkIndication> {
    let mut map = AddressMap::new();
    let use_security = frame.is_secured();
    if !process_incoming_frame(&mut map, SecurityLevel::EncMic32, DEFAULT_NWK_ADDR, true, &mut frame) {
        return None;
    }
    let groups: GroupTable = Vec::new();
    let mac_src = Some(MacAddress::Short(PanId(0x1a62), PARENT_NWK_ADDR));
    end_device_handle_frame(DEFAULT_NWK_ADDR, &groups, &parent(), parent_information, &frame, mac_src, 0xff, use_security)
        .indication
}

fn parent() -> NwkNeighbor {
    NwkNeighbor::new(
        NewNwkNeighbour {
            ext_addr: PARENT_EXT_ADDR,
            nwk_addr: PARENT_NWK_ADDR,
            device_type: DeviceType::Coordinator,
            rx_on_when_idle: true,
            relationship: NeighborRelationship::Parent,
        },
        0,
    )
}

fn quick_indication_ed(header: NwkHeader) -> Option<NwkIndication> {
    let frame = NwkFrame::new_data_frame(header, Vec::from_slice(&PAYLOAD).unwrap());
    receive_as_end_device(frame, &mut ParentInformation::default())
}

#[test]
fn valid_frame_with_self_destination_is_indicated() {
    let mut c = ctx();
    let header = data_header(&mut c, DEFAULT_NWK_ADDR, true);

    let result = quick_indication_ed(header);

    assert!(result.is_some());

    let indication = result.unwrap();
    assert!(matches!(indication, NwkIndication::Data(_)));
    let indication = if let NwkIndication::Data(indication) = indication { indication } else { unreachable!() };

    assert_eq!(indication.src_address, NwkAddress(0));
    assert_eq!(indication.security_use, true);
    assert_eq!(indication.dst_address, NldeDataIndicationDstAddress::UnicastOrBroadcast(DEFAULT_NWK_ADDR));
    assert_eq!(indication.nsdu.as_slice()[0..17], PAYLOAD);
}

#[test]
fn valid_frame_with_other_destination_is_not_indicated() {
    let mut c = ctx();
    let header = data_header(&mut c, NwkAddress(3883), true);

    let result = quick_indication_ed(header);
    assert!(result.is_none())
}

#[test]
fn discard_unsecured_data_frame_secured_network() {
    let mut c = ctx();
    let header = data_header(&mut c, DEFAULT_NWK_ADDR, false);

    let result = quick_indication_ed(header);
    assert!(result.is_none())
}

#[test]
fn broadcast_data_reaches_the_end_device() {
    let mut c = ctx();
    let header = data_header(&mut c, NwkAddress(0xffff), true);
    assert!(matches!(quick_indication_ed(header), Some(NwkIndication::Data(_))));
    let header = data_header(&mut c, NwkAddress(0xfffd), true);
    assert!(quick_indication_ed(header).is_none());
}

#[test]
fn end_device_ignores_end_device_timeout_request_cmd() {
    let mut c = ctx();
    let frame = end_device_timeout_request_frame(&mut c, DEFAULT_NWK_ADDR, Some(DEFAULT_EXT_ADDR), DeviceTimeout::Mins2);
    let mut info = ParentInformation::default();
    assert!(receive_as_end_device(frame, &mut info).is_none());
    assert_eq!(info, ParentInformation::default());
}

#[test]
fn end_device_updates_parent_information_on_successful_end_device_timeout_response_cmd() {
    let mut c = ctx();
    let frame =
        end_device_timeout_response_frame(&mut c, DEFAULT_NWK_ADDR, DEFAULT_EXT_ADDR, EndDeviceTimeoutResponseStatus::Success);
    let mut info = ParentInformation::default();
    assert!(receive_as_end_device(frame, &mut info).is_none());

    assert_eq!(
        info,
        ParentInformation {
            mac_data_poll_keepalive_supported: true,
            end_device_timeout_request_keepalive_supported: true,
            power_negotiation_supported: false,
        }
    )
}

#[test]
fn coordinator_drops_leave_request() {}

#[test]
fn router_drops_leave_request_if_nwk_leave_request_allowed_is_false() {}

fn parent_ctx() -> HeaderContext {
    HeaderContext { addr: PARENT_NWK_ADDR, ext_addr: PARENT_EXT_ADDR, max_depth: 15, seq_number: 7 }
}

/// Runs a received leave command of the parent through the end device.
fn receive_leave(leave: Leave, dest: NwkAddress) -> EndDeviceReception {
    let mut frame = leave_frame(&mut parent_ctx(), leave, dest, None);
    let mut map = AddressMap::new();
    let use_security = frame.is_secured();
    assert!(process_incoming_frame(&mut map, SecurityLevel::EncMic32, DEFAULT_NWK_ADDR, true, &mut frame));
    let groups: GroupTable = Vec::new();
    let mac_src = Some(MacAddress::Short(PanId(0x1a62), PARENT_NWK_ADDR));
    let mut info = ParentInformation::default();
    end_device_handle_frame(DEFAULT_NWK_ADDR, &groups, &parent(), &mut info, &frame, mac_src, 0xff, use_security)
}

#[test]
fn a_received_leave_of_the_parent_is_indicated() {
    let r = receive_leave(Leave { rejoin: true, request: false, remove_children: false }, DEFAULT_NWK_ADDR);
    assert!(matches!(r.indication, Some(NwkIndication::Leave(NlmeLeaveIndication::LeaveParent { rejoin: true }))));
    assert!(r.emit.is_none());
}

#[test]
fn a_received_leave_request_of_the_parent_is_followed() {
    let r = receive_leave(Leave { rejoin: true, request: true, remove_children: false }, DEFAULT_NWK_ADDR);
    assert!(matches!(r.indication, Some(NwkIndication::Leave(NlmeLeaveIndication::LeaveSelf { rejoin: true }))));
    let e = r.emit.unwrap();
    assert_eq!(e.leave, Leave { request: false, rejoin: true, remove_children: false });
    assert_eq!(e.dest, PARENT_NWK_ADDR);
    assert_eq!(e.dest_ext, Some(PARENT_EXT_ADDR));
}
