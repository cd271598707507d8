use zigbee::nwk::nlde::NlmeLeaveIndication;
use rand::rngs::SmallRng;
use rand::SeedableRng;
use zigbee::collections::Vec;
use zigbee::common::{DeviceType, ExtendedAddress, NwkAddress};
use zigbee::mac::{MacAddress, MacCapabilities, MacCurrentSource, MacDeviceType};
use zigbee::common::PanId;
use zigbee::nwk::commands::{
    Command, DeviceTimeout, EndDeviceTimeoutRequest, EndDeviceTimeoutResponseStatus, Leave, LinkCost, LinkStatus,
    LinkStatusCmd, LinkStatusEntry, LinkStatusOptions, ManyToOne, RouteRequest, RouteRequestOptions,
};
use zigbee::nwk::frame::header::{FrameType, HeaderContext, NwkHeader};
use zigbee::nwk::nib::{AddressMap, NeighborRelationship, NeighborTable, NewNwkNeighbour, NwkNeighbor};
use zigbee::nwk::frame::NwkFrame;
use zigbee::nwk::router::{
    end_device_handle_leave_request, make_link_status_commands, router_command_handler, RouterCommandHandler, DataFrameRoute, DirectJoinError, DirectJoinReq, LeaveEmission,
    RouteRequestAction, RouterState,
};
use zigbee::nwk::routing::{RouteError, RouteTable};
use zigbee::stack_profile::StackProfile;

const DEFAULT_PARENT_EXT_ADDR: ExtendedAddress = ExtendedAddress(0x1233_5678_90ab_cdef);
const DEFAULT_PARENT_NWK_ADDR: NwkAddress = NwkAddress(0x1233);
const DEFAULT_CHILD_EXT_ADDR: ExtendedAddress = ExtendedAddress(0x1235_5678_90ab_cdef);
const DEFAULT_CHILD_NWK_ADDR: NwkAddress = NwkAddress(0x1235);
const SELF_NWK_ADDR: NwkAddress = NwkAddress(0x1234);
const SELF_EXT_ADDR: ExtendedAddress = ExtendedAddress(0x1234_5678_90ab_cdef);

fn neighbor(nwk: NwkAddress, ext: ExtendedAddress, device_type: DeviceType, relationship: NeighborRelationship) -> NwkNeighbor {
    NwkNeighbor::new(NewNwkNeighbour { ext_addr: ext, nwk_addr: nwk, device_type, rx_on_when_idle: true, relationship }, 0)
}

fn router() -> RouterState {
    let parent = neighbor(DEFAULT_PARENT_NWK_ADDR, DEFAULT_PARENT_EXT_ADDR, DeviceType::Router, NeighborRelationship::Parent);
    let mut neighbors = NeighborTable::new(parent);
    assert!(neighbors
        .children
        .push(neighbor(DEFAULT_CHILD_NWK_ADDR, DEFAULT_CHILD_EXT_ADDR, DeviceType::EndDevice, NeighborRelationship::Child))
        .is_ok());
    RouterState {
        addr: SELF_NWK_ADDR,
        ext_addr: SELF_EXT_ADDR,
        params: StackProfile::ZigbeePro.get_params(),
        rx_on_when_idle: true,
        neighbors,
        group_table: Vec::new(),
        addr_map: AddressMap::new(),
        broadcast_transaction_table: Vec::new(),
        route_record_table: Vec::new(),
        route_table: RouteTable::new(),
    }
}

fn ctx() -> HeaderContext {
    HeaderContext { addr: SELF_NWK_ADDR, ext_addr: SELF_EXT_ADDR, max_depth: 15, seq_number: 0 }
}

fn header(source: NwkAddress, destination: NwkAddress, radius: u8) -> NwkHeader {
    NwkHeader::new(&mut ctx(), FrameType::Data, true, false, destination, None, None, None, Some(source), Some(0), Some(radius))
}

fn link_status(entries: &[(NwkAddress, LinkCost, LinkCost)]) -> LinkStatusCmd {
    let mut v = Vec::new();
    for (a, i, o) in entries {
        assert!(v
            .push(LinkStatusEntry { neighbor_address: *a, link_status: LinkStatus { incoming_cost: *i, outgoing_cost: *o } })
            .is_ok());
    }
    LinkStatusCmd {
        command_options: LinkStatusOptions { entry_count: entries.len() as u8, first_frame: true, last_frame: true },
        entries: v,
    }
}

fn child(r: &RouterState) -> NwkNeighbor {
    *r.neighbors.children.get(r.neighbors.find_by_short_addr(DEFAULT_CHILD_NWK_ADDR).unwrap())
}

fn capabilities(device_type: MacDeviceType) -> MacCapabilities {
    MacCapabilities {
        alternate_pan_coordinator: false,
        device_type,
        current_source: MacCurrentSource::Other,
        rx_on_when_idle: false,
        security: false,
        allocate_address: true,
    }
}

#[test]
fn router_updates_device_expiration_on_received_link_status_command() {
    let mut r = router();
    let now = 5_000;
    r.handle_link_status_command(DEFAULT_CHILD_NWK_ADDR, &link_status(&[(SELF_NWK_ADDR, LinkCost::_3, LinkCost::_5)]), now);
    assert_eq!(child(&r).expiration, now + 15 * 3 * 1000);
}

#[test]
fn router_updates_outgoing_cost_if_address_in_cmd() {
    let mut r = router();
    r.handle_link_status_command(DEFAULT_CHILD_NWK_ADDR, &link_status(&[(SELF_NWK_ADDR, LinkCost::_3, LinkCost::_5)]), 0);
    assert_eq!(child(&r).outgoing_cost, LinkCost::_3);
}

#[test]
fn router_updates_outgoing_cost_if_address_in_cmd_range_but_not_found() {
    let mut r = router();
    let cmd = link_status(&[
        (NwkAddress(SELF_NWK_ADDR.0 - 2), LinkCost::_3, LinkCost::_5),
        (NwkAddress(SELF_NWK_ADDR.0 + 2), LinkCost::_3, LinkCost::_5),
    ]);
    r.handle_link_status_command(DEFAULT_CHILD_NWK_ADDR, &cmd, 0);
    assert_eq!(child(&r).outgoing_cost, LinkCost::Unknown);
}

#[test]
fn router_ignores_frame_if_address_not_in_range() {
    let mut r = router();
    let before = child(&r).outgoing_cost;
    let cmd = link_status(&[
        (NwkAddress(SELF_NWK_ADDR.0 - 4), LinkCost::_3, LinkCost::_5),
        (NwkAddress(SELF_NWK_ADDR.0 - 3), LinkCost::_3, LinkCost::_5),
    ]);
    r.handle_link_status_command(DEFAULT_CHILD_NWK_ADDR, &cmd, 0);
    assert_eq!(child(&r).outgoing_cost, before);
}

#[test]
fn link_status_from_a_stranger_changes_nothing() {
    let mut r = router();
    let before = child(&r);
    r.handle_link_status_command(NwkAddress(0x4444), &link_status(&[(SELF_NWK_ADDR, LinkCost::_1, LinkCost::_1)]), 9);
    assert_eq!(child(&r), before);
}

#[test]
fn leave_request_with_request_field_true_is_dropped_if_address_is_broadcast() {
    let mut r = router();
    let hdr = header(DEFAULT_PARENT_NWK_ADDR, NwkAddress(0xfffd), 1);
    let d = r.handle_leave_request(&hdr, Leave { rejoin: false, request: true, remove_children: false });
    assert_eq!(d.emit, None);
    assert_eq!(d.indication, None);
}

#[test]
fn router_processes_leave_request_if_nwk_leave_request_allowed_is_true() {
    let mut r = router();
    let hdr = header(DEFAULT_PARENT_NWK_ADDR, SELF_NWK_ADDR, 1);
    let d = r.handle_leave_request(&hdr, Leave { rejoin: true, request: true, remove_children: false });
    let e = d.emit.unwrap();
    assert_eq!(e.leave, Leave { request: false, rejoin: true, remove_children: false });
    assert_eq!(d.indication, Some(NlmeLeaveIndication::LeaveSelf { rejoin: true }));
    // The frame that carries it goes to all devices whose receiver is on.
    let frame = zigbee::nwk::emission::leave_frame(&mut ctx(), e.leave, e.dest, e.dest_ext);
    assert_eq!(frame.header().destination, NwkAddress(0xfffd));
}

#[test]
fn router_leaves_if_parent_has_left_and_children_should_leave() {
    let mut r = router();
    let mut hdr = header(DEFAULT_PARENT_NWK_ADDR, SELF_NWK_ADDR, 1);
    hdr.source_ieee = Some(DEFAULT_PARENT_EXT_ADDR);
    let d = r.handle_leave_request(&hdr, Leave { rejoin: true, request: false, remove_children: true });
    assert_eq!(d.indication, Some(NlmeLeaveIndication::LeaveParent { rejoin: true }));
    let e: LeaveEmission = d.emit.unwrap();
    assert_eq!(e.leave, Leave { request: false, rejoin: true, remove_children: true });
    let frame = zigbee::nwk::emission::leave_frame(&mut ctx(), e.leave, e.dest, e.dest_ext);
    assert_eq!(frame.header().destination, NwkAddress(0xfffd));
}

#[test]
fn router_removes_child_on_child_leave() {
    let mut r = router();
    let hdr = header(DEFAULT_CHILD_NWK_ADDR, SELF_NWK_ADDR, 1);
    let d = r.handle_leave_request(&hdr, Leave { rejoin: true, request: false, remove_children: true });
    assert_eq!(d.emit, None);
    assert_eq!(d.indication, None);
    assert!(r.neighbors.children.is_empty());
}

#[test]
fn end_device_drops_leave_request_if_not_from_parent() {
    let parent = neighbor(DEFAULT_PARENT_NWK_ADDR, DEFAULT_PARENT_EXT_ADDR, DeviceType::Router, NeighborRelationship::Parent);
    let hdr = header(NwkAddress(0x7777), SELF_NWK_ADDR, 1);
    let d = end_device_handle_leave_request(&parent, &hdr, Leave { rejoin: true, request: true, remove_children: false });
    assert_eq!(d.emit, None);
    assert_eq!(d.indication, None);
}

#[test]
fn end_device_processes_leave_request_if_from_parent() {
    let parent = neighbor(DEFAULT_PARENT_NWK_ADDR, DEFAULT_PARENT_EXT_ADDR, DeviceType::Router, NeighborRelationship::Parent);
    let hdr = header(DEFAULT_PARENT_NWK_ADDR, SELF_NWK_ADDR, 1);
    let d = end_device_handle_leave_request(&parent, &hdr, Leave { rejoin: true, request: true, remove_children: false });
    let e = d.emit.unwrap();
    assert_eq!(e.leave, Leave { request: false, rejoin: true, remove_children: false });
    assert_eq!(d.indication, Some(NlmeLeaveIndication::LeaveSelf { rejoin: true }));
    let frame = zigbee::nwk::emission::leave_frame(&mut ctx(), e.leave, e.dest, e.dest_ext);
    assert_eq!(frame.header().destination, NwkAddress(0xfffd));
}

#[test]
fn end_device_sends_leave_indication_if_parent_left() {
    let parent = neighbor(DEFAULT_PARENT_NWK_ADDR, DEFAULT_PARENT_EXT_ADDR, DeviceType::Router, NeighborRelationship::Parent);
    let hdr = header(DEFAULT_PARENT_NWK_ADDR, SELF_NWK_ADDR, 1);
    let d = end_device_handle_leave_request(&parent, &hdr, Leave { rejoin: true, request: false, remove_children: false });
    assert_eq!(d.emit, None);
    assert_eq!(d.indication, Some(NlmeLeaveIndication::LeaveParent { rejoin: true }));
}

#[test]
fn router_increases_child_timeout_on_valid_end_device_timeout_request() {
    let mut r = router();
    let before = child(&r).expiration;
    let cmd = EndDeviceTimeoutRequest { requested_timeout: DeviceTimeout::Mins8, end_device_configuration: 0 };
    let now = 100;
    let st = r.handle_end_device_timeout_request_command(DEFAULT_CHILD_NWK_ADDR, Some(DEFAULT_CHILD_EXT_ADDR), &cmd, now);
    assert_eq!(st, Some(EndDeviceTimeoutResponseStatus::Success));
    let after = child(&r).expiration;
    assert_ne!(before, after);
    assert_eq!(after, now + 8 * 60 * 1000);
    assert_eq!(DeviceTimeout::Mins8.get_duration_ms(), 480_000);
}

#[test]
fn router_returns_valid_end_device_timeout_response_on_valid_end_device_timeout_request() {
    let mut r = router();
    let cmd = EndDeviceTimeoutRequest { requested_timeout: DeviceTimeout::Mins8, end_device_configuration: 0 };
    let st = r.handle_end_device_timeout_request_command(DEFAULT_CHILD_NWK_ADDR, Some(DEFAULT_CHILD_EXT_ADDR), &cmd, 0).unwrap();
    let frame = zigbee::nwk::emission::end_device_timeout_response_frame(&mut ctx(), DEFAULT_CHILD_NWK_ADDR, DEFAULT_CHILD_EXT_ADDR, st);
    assert_eq!(frame.header().source, SELF_NWK_ADDR);
    assert_eq!(frame.header().destination, DEFAULT_CHILD_NWK_ADDR);
    assert_eq!(st, EndDeviceTimeoutResponseStatus::Success);
}

#[test]
fn router_returns_invalid_end_device_timeout_response_on_invalid_end_device_timeout_request() {
    let mut r = router();
    let cmd = EndDeviceTimeoutRequest { requested_timeout: DeviceTimeout::Mins8, end_device_configuration: 1 };
    let st = r.handle_end_device_timeout_request_command(DEFAULT_CHILD_NWK_ADDR, Some(DEFAULT_CHILD_EXT_ADDR), &cmd, 0);
    assert_eq!(st, Some(EndDeviceTimeoutResponseStatus::IncorrectValue));
}

#[test]
fn router_ignores_end_device_request_for_non_child() {
    let mut r = router();
    let cmd = EndDeviceTimeoutRequest { requested_timeout: DeviceTimeout::Mins2, end_device_configuration: 0 };
    let st = r.handle_end_device_timeout_request_command(NwkAddress(0x1111), Some(ExtendedAddress(0x1234123412341234)), &cmd, 0);
    assert_eq!(st, None);
    let st = r.handle_end_device_timeout_request_command(DEFAULT_CHILD_NWK_ADDR, None, &cmd, 0);
    assert_eq!(st, None);
}

#[test]
fn broadcast_is_taken_once() {
    let mut r = router();
    assert!(r.check_and_update_broadcast_transaction_table(NwkAddress(0x42), 7, 1000, 500));
    assert!(r.btt_has(NwkAddress(0x42), 7));
    assert!(!r.check_and_update_broadcast_transaction_table(NwkAddress(0x42), 7, 1000, 500));
    assert!(r.check_and_update_broadcast_transaction_table(NwkAddress(0x42), 8, 1000, 500));
}

#[test]
fn data_frames_are_routed() {
    let mut r = router();
    let h = header(NwkAddress(0x10), SELF_NWK_ADDR, 3);
    assert_eq!(r.handle_data_indication(&h, MacAddress::Short(PanId(1), NwkAddress(0x10))), Some(DataFrameRoute::Deliver));
    let h = header(NwkAddress(0x10), NwkAddress(0x20), 3);
    assert_eq!(r.handle_data_indication(&h, MacAddress::Short(PanId(1), NwkAddress(0x10))), Some(DataFrameRoute::RelayUnicast));
    let h = header(NwkAddress(0x10), NwkAddress(0xffff), 3);
    assert_eq!(r.handle_data_indication(&h, MacAddress::Short(PanId(1), NwkAddress(0x10))), Some(DataFrameRoute::RelayBroadcast));
    let h = header(NwkAddress(0x10), NwkAddress(0x20), 0);
    assert_eq!(r.handle_data_indication(&h, MacAddress::Short(PanId(1), NwkAddress(0x10))), Some(DataFrameRoute::Deliver));
    assert!(!r.should_indicate_data_frame(&h, false));
    let h = header(NwkAddress(0x10), SELF_NWK_ADDR, 0);
    assert!(r.should_indicate_data_frame(&h, false));
}

#[test]
fn end_device_frames_need_an_end_device_child() {
    let r = router();
    let mut h = header(NwkAddress(0x99), SELF_NWK_ADDR, 1);
    h.control.end_device_initiator = true;
    assert!(!r.handle_end_device_frame(&h));
    h.source = DEFAULT_CHILD_NWK_ADDR;
    assert!(r.handle_end_device_frame(&h));
}

#[test]
fn assigned_child_addresses_are_free() {
    let r = router();
    let mut rng = SmallRng::seed_from_u64(7);
    for _ in 0..50 {
        let a = r.assign_child_address(&mut rng).unwrap();
        assert!(a.0 >= 1 && a.0 < 0xfff6);
        assert!(!r.address_in_use(a));
        assert_ne!(a, SELF_NWK_ADDR);
        assert_ne!(a, DEFAULT_CHILD_NWK_ADDR);
    }
}

#[test]
fn direct_join_adds_a_child_once() {
    let mut r = router();
    let mut rng = SmallRng::seed_from_u64(11);
    let ext = ExtendedAddress(0xabcd);
    let req = DirectJoinReq { ext_addr: ext, capability_information: capabilities(MacDeviceType::ReducedFunctionDevice) };
    assert_eq!(r.direct_join(req, &mut rng, 0), Ok(()));
    let i = r.neighbors.find_by_ext_addr(ext).unwrap();
    let nb = *r.neighbors.children.get(i);
    assert_eq!(nb.device_type, DeviceType::EndDevice);
    assert_eq!(nb.relationship, NeighborRelationship::Child);
    assert!(nb.nwk_addr.0 >= 1 && nb.nwk_addr.0 < 0xfff6);
    let req = DirectJoinReq { ext_addr: ext, capability_information: capabilities(MacDeviceType::FullFunctionDevice) };
    assert_eq!(r.direct_join(req, &mut rng, 0), Err(DirectJoinError::AlreadyPresent));
}

#[test]
fn route_requests_for_other_devices_are_relayed() {
    let mut r = router();
    let h = header(NwkAddress(0x0001), NwkAddress(0xfffc), 5);
    let cmd = RouteRequest {
        command_options: RouteRequestOptions { many_to_one: ManyToOne::NotManyToOne, destination_ieee: false, multicast: false },
        route_request_id: 3,
        dst_addr: NwkAddress(0x0777),
        path_cost: 2,
        destination_ieee_address: None,
    };
    // With symmetric links, a request from a device with no known link is dropped.
    let action = r.handle_route_request_command(NwkAddress(0x0005), &h, &cmd, 0);
    assert_eq!(action, RouteRequestAction::Drop);
    let mut child = *r.neighbors.children.get(0);
    child.outgoing_cost = LinkCost::_3;
    r.neighbors.children.set(0, child);
    let action = r.handle_route_request_command(DEFAULT_CHILD_NWK_ADDR, &h, &cmd, 0);
    assert_eq!(action, RouteRequestAction::Relay);
    assert_eq!(r.route_table.discoveries.len(), 1);
}

#[test]
fn route_discovery_fills_the_tables() {
    let mut r = router();
    let req = r.initiate_unicast_discovery(NwkAddress(0x0999), false, 4, 0).unwrap();
    assert_eq!(req.route_request_id, 4);
    assert_eq!(req.path_cost, 0);
    assert_eq!(r.route_table.routes.len(), 1);
    assert_eq!(r.route_table.discoveries.len(), 1);
}

#[test]
fn route_discovery_without_room_fails() {
    let mut r = router();
    for a in 0..32u16 {
        assert!(r.initiate_unicast_discovery(NwkAddress(0x2000 + a), false, 1, 0).is_ok() || a >= 32);
    }
    assert_eq!(
        r.initiate_unicast_discovery(NwkAddress(0x3000), false, 1, 0),
        Err(RouteError::RouteError(zigbee::nwk::commands::NetworkStatusCode::NoRoutingCapacity))
    );
}

#[test]
fn address_conflicts_are_detected() {
    let mut r = router();
    let mut h = header(NwkAddress(0x0abc), SELF_NWK_ADDR, 1);
    h.source_ieee = Some(ExtendedAddress(1));
    assert!(!r.handle_addr_conflict(&h));
    assert_eq!(r.addr_map.find_ext_addr(&NwkAddress(0x0abc)), Some(ExtendedAddress(1)));
    h.source_ieee = Some(ExtendedAddress(2));
    assert!(r.handle_addr_conflict(&h));
    assert!(r.is_address_conflict(&NwkAddress(0x0abc), &ExtendedAddress(2), false));
    assert!(!r.is_address_conflict(&NwkAddress(0x0abc), &ExtendedAddress(1), false));
}

#[test]
fn live_broadcast_records_are_kept() {
    let mut r = router();
    assert!(r.check_and_update_broadcast_transaction_table(NwkAddress(0x42), 7, 1000, 500));
    // Another broadcast within the delivery time keeps the first record.
    assert!(r.check_and_update_broadcast_transaction_table(NwkAddress(0x43), 1, 1200, 500));
    assert!(!r.check_and_update_broadcast_transaction_table(NwkAddress(0x42), 7, 1400, 500));
    // Once expired, the record goes and the broadcast is taken again.
    assert!(r.check_and_update_broadcast_transaction_table(NwkAddress(0x42), 7, 1600, 500));
    assert_eq!(r.broadcast_transaction_table.len(), 2);
}

fn child_at(addr: u16) -> NwkNeighbor {
    neighbor(NwkAddress(addr), ExtendedAddress(0x1000 + addr as u64), DeviceType::Router, NeighborRelationship::Child)
}

#[test]
fn link_status_lists_every_neighbor_over_overlapping_frames() {
    let parent = neighbor(DEFAULT_PARENT_NWK_ADDR, DEFAULT_PARENT_EXT_ADDR, DeviceType::Router, NeighborRelationship::Parent);
    let mut table = NeighborTable::new(parent);
    for a in (1..=17u16).rev() {
        assert!(table.children.push(child_at(a)).is_ok());
    }
    let commands = make_link_status_commands(&mut table, 0);
    assert_eq!(commands.len(), 2);
    let frames: std::vec::Vec<&LinkStatusCmd> = (0..commands.len())
        .map(|i| match commands.get(i) {
            Command::LinkStatus(c) => c,
            _ => panic!("not a link status"),
        })
        .collect();
    assert_eq!(frames[0].entries.len(), 16);
    assert_eq!(frames[1].entries.len(), 2);
    assert!(frames[0].command_options.first_frame && !frames[0].command_options.last_frame);
    assert!(!frames[1].command_options.first_frame && frames[1].command_options.last_frame);
    assert_eq!(frames[0].entries.get(15).neighbor_address, frames[1].entries.get(0).neighbor_address);
    assert_eq!(frames[0].entries.get(0).neighbor_address, NwkAddress(1));
    assert_eq!(frames[1].entries.get(1).neighbor_address, NwkAddress(17));
}

#[test]
fn end_device_timeout_request_is_answered_to_the_sender() {
    let mut r = router();
    let mut c = ctx();
    let req = EndDeviceTimeoutRequest { requested_timeout: DeviceTimeout::Mins8, end_device_configuration: 0 };
    let f = r
        .answer_end_device_timeout_request(&mut c, DEFAULT_CHILD_NWK_ADDR, Some(DEFAULT_CHILD_EXT_ADDR), &req, 100)
        .unwrap();
    assert_eq!(f.header().destination, DEFAULT_CHILD_NWK_ADDR);
    assert_eq!(f.header().source, SELF_NWK_ADDR);
    assert_eq!(f.header().destination_ieee, Some(DEFAULT_CHILD_EXT_ADDR));
    match f {
        NwkFrame::NwkCommand(cf) => match cf.command {
            Command::EndDeviceTimeoutResponse(resp) => assert_eq!(resp.status, EndDeviceTimeoutResponseStatus::Success),
            _ => panic!("invalid frame type sent"),
        },
        _ => panic!("invalid frame type sent"),
    }
    assert_eq!(child(&r).expiration, 100 + 8 * 60 * 1000);
    let bad = EndDeviceTimeoutRequest { requested_timeout: DeviceTimeout::Mins8, end_device_configuration: 1 };
    let f = r.answer_end_device_timeout_request(&mut c, DEFAULT_CHILD_NWK_ADDR, Some(DEFAULT_CHILD_EXT_ADDR), &bad, 200).unwrap();
    match f {
        NwkFrame::NwkCommand(cf) => match cf.command {
            Command::EndDeviceTimeoutResponse(resp) => assert_eq!(resp.status, EndDeviceTimeoutResponseStatus::IncorrectValue),
            _ => panic!("invalid frame type sent"),
        },
        _ => panic!("invalid frame type sent"),
    }
    assert!(r.answer_end_device_timeout_request(&mut c, DEFAULT_CHILD_NWK_ADDR, None, &req, 300).is_none());
}

#[test]
fn route_replies_are_taken_only_when_addressed_here() {
    let reply = Command::RouteReply(zigbee::nwk::commands::RouteReply {
        command_options: zigbee::nwk::commands::RouteReplyOptions { originator_ieee: false, responder_ieee: false, multicast: false },
        route_request_id: 1,
        originator_address: NwkAddress(1),
        responder_address: NwkAddress(2),
        path_cost: 1,
        originator_ieee_address: None,
        responder_ieee_address: None,
    });
    let h = header(NwkAddress(2), SELF_NWK_ADDR, 3);
    assert_eq!(router_command_handler(SELF_NWK_ADDR, &h, &reply), Some(RouterCommandHandler::RouteReply));
    let h = header(NwkAddress(2), NwkAddress(0x99), 3);
    assert_eq!(router_command_handler(SELF_NWK_ADDR, &h, &reply), None);
    let leave = Command::Leave(Leave { rejoin: false, request: true, remove_children: false });
    assert_eq!(router_command_handler(SELF_NWK_ADDR, &h, &leave), Some(RouterCommandHandler::Leave));
}

#[test]
fn a_route_request_overflows_only_where_its_cost_is_added() {
    let mut r = router();
    let h = header(NwkAddress(0x0001), NwkAddress(0xfffc), 5);
    let cmd = RouteRequest {
        command_options: RouteRequestOptions { many_to_one: ManyToOne::NotManyToOne, destination_ieee: false, multicast: false },
        route_request_id: 3,
        dst_addr: NwkAddress(0x0777),
        path_cost: 250,
        destination_ieee_address: None,
    };
    // Dropped early: with symmetric links the sender has no link cost.
    assert!(!r.route_request_cost_overflows(NwkAddress(0x0005), &h, &cmd));
    let mut child = *r.neighbors.children.get(0);
    child.outgoing_cost = LinkCost::_3;
    r.neighbors.children.set(0, child);
    assert!(r.route_request_cost_overflows(DEFAULT_CHILD_NWK_ADDR, &h, &cmd));
    let cheap = RouteRequest { path_cost: 2, ..cmd };
    assert!(!r.route_request_cost_overflows(DEFAULT_CHILD_NWK_ADDR, &h, &cheap));
}

#[test]
fn the_broadcast_table_takes_a_broadcast_it_has_not_seen() {
    let mut r = router();
    assert!(r.btt_accepts(NwkAddress(0x0042), 7, 1_000));
    assert!(r.check_and_update_broadcast_transaction_table(NwkAddress(0x0042), 7, 1_000, 9_000));
    assert!(!r.btt_accepts(NwkAddress(0x0042), 7, 2_000));
    assert!(r.btt_accepts(NwkAddress(0x0042), 8, 2_000));
    assert!(r.btt_accepts(NwkAddress(0x0042), 7, 20_000));
}

#[test]
fn a_route_reply_is_taken_only_for_a_known_discovery() {
    let mut r = router();
    let reply = zigbee::nwk::commands::RouteReply {
        command_options: zigbee::nwk::commands::RouteReplyOptions { originator_ieee: false, responder_ieee: false, multicast: false },
        route_request_id: 4,
        originator_address: SELF_NWK_ADDR,
        responder_address: NwkAddress(0x0999),
        path_cost: 3,
        originator_ieee_address: None,
        responder_ieee_address: None,
    };
    assert!(!r.route_reply_taken(&reply));
    r.initiate_unicast_discovery(NwkAddress(0x0999), false, 4, 0).unwrap();
    assert!(r.route_reply_taken(&reply));
    assert!(!r.route_reply_taken(&zigbee::nwk::commands::RouteReply { route_request_id: 5, ..reply }));
}

#[test]
fn a_frame_for_a_child_does_not_reach_the_tree() {
    let r = router();
    assert!(!r.unicast_reaches_tree(DEFAULT_CHILD_NWK_ADDR));
    assert!(r.unicast_reaches_tree(NwkAddress(0x0abc)));
}
