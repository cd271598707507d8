use zigbee::mac::{Channel, ChannelMask, ChannelPage};
use zigbee::bytes::ParseError;
use zigbee::collections::Vec;
use zigbee::common::{ExtendedAddress, NwkAddress, PanId, BROADCAST_ROUTERS};
use zigbee::mac::{MacCapabilities, MacCurrentSource, MacDeviceType};
use zigbee::nwk::commands::{
    Command, DeviceTimeout, EndDeviceTimeoutResponseStatus, Leave, ManyToOne, NetworkStatusCmd, NetworkStatusCode,
    RejoinRequestCmd, RejoinResponse, RejoinResponseCmd, RouteReply, RouteReplyOptions,
};
use zigbee::nwk::emission::{
    data_frame, end_device_timeout_request_frame, network_status_frame, nwk_report_frame, rejoin_request_frame,
    rejoin_response_frame, Alias, DataFrameConfig,
};
use zigbee::nwk::frame::header::{
    DiscoverRoute, FrameType, HeaderContext, MulticastControl, MulticastMode, NwkHeader, SourceRouteSubframe,
};
use zigbee::nwk::frame::NwkFrame;
use zigbee::nwk::nib::AddressMap;
use zigbee::nwk::nlde::NldeTransferError;
use zigbee::nwk::router::process_incoming_frame;
use zigbee::nwk::routing::{route_request_frame, RouteDiscoveryRequestAddress, RouteRequestCmd};
use zigbee::stack_profile::{AddrAllocMethod, SecurityLevel};

fn ctx() -> HeaderContext {
    HeaderContext {
        addr: NwkAddress(0x1234),
        ext_addr: ExtendedAddress(0x0102_0304_0506_0708),
        max_depth: 15,
        seq_number: 200,
    }
}

fn bytes_of(frame: &NwkFrame) -> std::vec::Vec<u8> {
    let mut out = std::vec::Vec::new();
    frame.serialize(&mut out);
    out
}

fn reparse(frame: &NwkFrame) -> NwkFrame {
    let bytes = bytes_of(frame);
    let (back, n) = NwkFrame::parse(&bytes).unwrap();
    assert_eq!(n, bytes.len());
    assert_eq!(bytes_of(&back), bytes);
    back
}

#[test]
fn command_header_takes_the_device_defaults() {
    let mut c = ctx();
    let h = NwkHeader::cmd(&mut c, true, NwkAddress(0x0001), None, None, None, None);
    assert_eq!(h.control.frame_type, FrameType::NwkCommand);
    assert_eq!(h.control.version, 2);
    assert_eq!(h.control.route_discovery, DiscoverRoute::Suppress);
    assert!(h.control.security);
    assert!(h.control.src_ext_addr);
    assert!(!h.control.dst_ext_addr);
    assert_eq!(h.source, NwkAddress(0x1234));
    assert_eq!(h.source_ieee, Some(ExtendedAddress(0x0102_0304_0506_0708)));
    assert_eq!(h.radius, 30);
    assert_eq!(h.sequence_number, 200);
    assert_eq!(c.seq_number, 201);
    let h = NwkHeader::cmd(&mut c, false, NwkAddress(0x0001), None, None, Some(9), Some(1));
    assert_eq!(h.sequence_number, 9);
    assert_eq!(h.radius, 1);
    assert_eq!(c.seq_number, 201);
}

#[test]
fn sequence_numbers_wrap() {
    let mut c = ctx();
    c.seq_number = 255;
    assert_eq!(c.get_next_seq_number(), 255);
    assert_eq!(c.seq_number, 0);
}

#[test]
fn header_with_every_part_reads_back() {
    let mut c = ctx();
    let mut relays = Vec::new();
    assert!(relays.push(0x0102).is_ok());
    assert!(relays.push(0x0304).is_ok());
    let mut h = NwkHeader::new(
        &mut c,
        FrameType::Data,
        false,
        true,
        NwkAddress(0xfff0),
        Some(ExtendedAddress(0x55)),
        Some(ExtendedAddress(0x66)),
        Some(SourceRouteSubframe { relay_count: 2, relay_index: 1, relay_list: relays }),
        None,
        None,
        Some(4),
    );
    h.control.multicast = true;
    h.multicast_control =
        Some(MulticastControl { multicast_mode: MulticastMode::Member, non_member_radius: 3, max_non_member_radius: 5 });
    let mut out = std::vec::Vec::new();
    h.serialize(&mut out);
    let (back, n) = NwkHeader::parse(&out).unwrap();
    assert_eq!(n, out.len());
    assert_eq!(back.control, h.control);
    assert_eq!(back.destination, NwkAddress(0xfff0));
    assert_eq!(back.source, NwkAddress(0x1234));
    assert_eq!(back.radius, 4);
    assert_eq!(back.sequence_number, 200);
    assert_eq!(back.destination_ieee, Some(ExtendedAddress(0x55)));
    assert_eq!(back.source_ieee, Some(ExtendedAddress(0x66)));
    assert_eq!(back.multicast_control, h.multicast_control);
    let s = back.source_route_subframe.unwrap();
    assert_eq!((s.relay_count, s.relay_index), (2, 1));
    assert_eq!(s.relay_list.as_slice(), &[0x0102, 0x0304]);
}

#[test]
fn truncated_header_is_incomplete() {
    let mut c = ctx();
    let h = NwkHeader::cmd(&mut c, true, NwkAddress(0x0001), None, None, None, None);
    let mut out = std::vec::Vec::new();
    h.serialize(&mut out);
    assert_eq!(NwkHeader::parse(&out[..out.len() - 1]).err(), Some(ParseError::Incomplete));
    assert_eq!(NwkHeader::parse(&[]).err(), Some(ParseError::Incomplete));
}

#[test]
fn command_frames_read_back() {
    let mut c = ctx();
    let f = end_device_timeout_request_frame(&mut c, NwkAddress(0x0002), Some(ExtendedAddress(7)), DeviceTimeout::Mins8);
    assert_eq!(c.seq_number, 201);
    assert_eq!(f.header().radius, 1);
    match reparse(&f) {
        NwkFrame::NwkCommand(cf) => match cf.command {
            Command::EndDeviceTimeoutRequest(r) => {
                assert_eq!(r.requested_timeout, DeviceTimeout::Mins8);
                assert_eq!(r.end_device_configuration, 0);
            },
            _ => panic!("an end device timeout request reads back as one"),
        },
        _ => panic!("a command frame reads back as one"),
    }
    let f = network_status_frame(
        &mut c,
        &NetworkStatusCmd {
            dest_short_addr: NwkAddress(0xfffd),
            dest_extended_addr: None,
            status_code: NetworkStatusCode::AddressConflict,
            destination_address: NwkAddress(0x0abc),
        },
    );
    match reparse(&f) {
        NwkFrame::NwkCommand(cf) => match cf.command {
            Command::NetworkStatus(s) => {
                assert_eq!(s.status_code, NetworkStatusCode::AddressConflict);
                assert_eq!(s.destination_address, NwkAddress(0x0abc));
            },
            _ => panic!("a network status reads back as one"),
        },
        _ => panic!("a command frame reads back as one"),
    }
    let f = rejoin_response_frame(
        &mut c,
        &RejoinResponseCmd {
            dst_addr: NwkAddress(0x0003),
            ext_dst_addr: ExtendedAddress(9),
            rejoin_response: RejoinResponse::Success(NwkAddress(0x0bbb)),
        },
    );
    match reparse(&f) {
        NwkFrame::NwkCommand(cf) => match cf.command {
            Command::RejoinResponse(r) => assert_eq!(r, RejoinResponse::Success(NwkAddress(0x0bbb))),
            _ => panic!("a rejoin response reads back as one"),
        },
        _ => panic!("a command frame reads back as one"),
    }
    let mut pans = Vec::new();
    assert!(pans.push(PanId(0x1a62)).is_ok());
    assert!(pans.push(PanId(0x2b73)).is_ok());
    let f = nwk_report_frame(&mut c, ExtendedAddress(0x77), pans);
    assert_eq!(f.header().destination, NwkAddress(0x0000));
    match reparse(&f) {
        NwkFrame::NwkCommand(cf) => match cf.command {
            Command::NetworkReport(r) => {
                assert_eq!(r.options.count, 2);
                assert_eq!(r.extended_pan_id, ExtendedAddress(0x77));
            },
            _ => panic!("a network report reads back as one"),
        },
        _ => panic!("a command frame reads back as one"),
    }
}

#[test]
fn rejoin_request_asks_for_no_address_under_stochastic_addressing() {
    let cap = MacCapabilities {
        alternate_pan_coordinator: false,
        device_type: MacDeviceType::FullFunctionDevice,
        current_source: MacCurrentSource::Mains,
        rx_on_when_idle: true,
        security: false,
        allocate_address: true,
    };
    let cfg = RejoinRequestCmd { dest_short_addr: NwkAddress(0x0001), dest_ext_addr: ExtendedAddress(1), capability_information: cap };
    let f = rejoin_request_frame(&mut ctx(), AddrAllocMethod::Stochastic, cfg);
    match f {
        NwkFrame::NwkCommand(cf) => match cf.command {
            Command::RejoinRequest(c) => assert!(!c.allocate_address),
            _ => panic!("a rejoin request is built"),
        },
        _ => panic!("a command frame is built"),
    }
    let cfg = RejoinRequestCmd { dest_short_addr: NwkAddress(0x0001), dest_ext_addr: ExtendedAddress(1), capability_information: cap };
    match rejoin_request_frame(&mut ctx(), AddrAllocMethod::Distributed, cfg) {
        NwkFrame::NwkCommand(cf) => match cf.command {
            Command::RejoinRequest(c) => assert!(c.allocate_address),
            _ => panic!("a rejoin request is built"),
        },
        _ => panic!("a command frame is built"),
    }
}

#[test]
fn data_frames_take_the_alias_or_the_device() {
    let mut c = ctx();
    let cfg = DataFrameConfig { dst_address: NwkAddress(0x0009), alias: None, radius: None, discover_route: true, security_disable: false };
    let f = data_frame(&mut c, &[1, 2, 3], &cfg).unwrap();
    assert_eq!(f.header().source, NwkAddress(0x1234));
    assert_eq!(f.header().sequence_number, 200);
    assert_eq!(f.header().control.route_discovery, DiscoverRoute::Enable);
    assert_eq!(c.seq_number, 201);
    let cfg = DataFrameConfig {
        dst_address: NwkAddress(0x0009),
        alias: Some(Alias { src_addr: NwkAddress(0x0077), seq_number: 5 }),
        radius: Some(2),
        discover_route: false,
        security_disable: true,
    };
    let f = data_frame(&mut c, &[1, 2, 3], &cfg).unwrap();
    assert_eq!(f.header().source, NwkAddress(0x0077));
    assert_eq!(f.header().sequence_number, 5);
    assert!(!f.header().control.security);
    assert_eq!(c.seq_number, 201);
    match reparse(&f) {
        NwkFrame::Data(d) => assert_eq!(d.payload.as_slice(), &[1, 2, 3]),
        _ => panic!("a data frame reads back as one"),
    }
    let long = [0u8; 109];
    assert_eq!(data_frame(&mut c, &long, &cfg).err(), Some(NldeTransferError::InvalidRequest));
}

#[test]
fn route_request_frames() {
    let mut c = ctx();
    let f = route_request_frame(
        &mut c,
        &RouteRequestCmd {
            dst_addr: RouteDiscoveryRequestAddress::UnicastOrBroadcast(NwkAddress(0xfffc)),
            ieee_destination: None,
            route_request_id: 1,
            path_cost: 0,
        },
    );
    assert_eq!(f.header().destination, NwkAddress(0xfffc));
    match reparse(&f) {
        NwkFrame::NwkCommand(cf) => match cf.command {
            Command::RouteRequest(r) => {
                assert_eq!(r.command_options.many_to_one, ManyToOne::ManyToOneRouteRecordSupported);
                assert!(!r.command_options.multicast);
                assert_eq!(r.dst_addr, NwkAddress(0xfffc));
            },
            _ => panic!("a route request reads back as one"),
        },
        _ => panic!("a command frame reads back as one"),
    }
    let f = route_request_frame(
        &mut c,
        &RouteRequestCmd {
            dst_addr: RouteDiscoveryRequestAddress::Multicast(NwkAddress(0x0010)),
            ieee_destination: Some(ExtendedAddress(4)),
            route_request_id: 2,
            path_cost: 0,
        },
    );
    match f {
        NwkFrame::NwkCommand(cf) => match cf.command {
            Command::RouteRequest(r) => {
                assert_eq!(r.command_options.many_to_one, ManyToOne::NotManyToOne);
                assert!(r.command_options.multicast);
                assert!(r.command_options.destination_ieee);
            },
            _ => panic!("a route request is built"),
        },
        _ => panic!("a command frame is built"),
    }
}

#[test]
fn route_reply_reads_back() {
    let mut c = ctx();
    let h = NwkHeader::cmd(&mut c, true, NwkAddress(0x0001), None, None, None, Some(1));
    let reply = RouteReply {
        command_options: RouteReplyOptions { originator_ieee: true, responder_ieee: false, multicast: false },
        route_request_id: 8,
        originator_address: NwkAddress(0x0011),
        responder_address: NwkAddress(0x0022),
        path_cost: 9,
        originator_ieee_address: Some(ExtendedAddress(0x33)),
        responder_ieee_address: None,
    };
    match reparse(&NwkFrame::new_cmd_frame(h, Command::RouteReply(reply))) {
        NwkFrame::NwkCommand(cf) => match cf.command {
            Command::RouteReply(r) => assert_eq!(r, reply),
            _ => panic!("a route reply reads back as one"),
        },
        _ => panic!("a command frame reads back as one"),
    }
}

#[test]
fn incoming_frames_lose_one_radius_and_teach_addresses() {
    let mut c = ctx();
    let mut h = NwkHeader::cmd(&mut c, true, NwkAddress(0x1234), None, None, None, Some(3));
    h.source = NwkAddress(0x0042);
    let mut f = NwkFrame::new_cmd_frame(h, Command::Leave(Leave { rejoin: false, request: false, remove_children: false }));
    let mut map = AddressMap::new();
    assert!(process_incoming_frame(&mut map, SecurityLevel::EncMic32, NwkAddress(0x1234), true, &mut f));
    assert_eq!(f.header().radius, 2);
    assert_eq!(map.find_ext_addr(&NwkAddress(0x0042)), Some(ExtendedAddress(0x0102_0304_0506_0708)));
    // An unsecured data frame is refused once the device is authorized.
    let cfg = DataFrameConfig { dst_address: NwkAddress(0x1234), alias: None, radius: Some(5), discover_route: false, security_disable: true };
    let mut d = data_frame(&mut c, &[0], &cfg).unwrap();
    assert!(!process_incoming_frame(&mut map, SecurityLevel::EncMic32, NwkAddress(0x1234), true, &mut d));
    assert!(process_incoming_frame(&mut map, SecurityLevel::EncMic32, NwkAddress(0x1234), false, &mut d));
    assert_eq!(d.header().radius, 3);
}

#[test]
fn end_device_timeout_response_status_codes() {
    assert_ne!(EndDeviceTimeoutResponseStatus::Success, EndDeviceTimeoutResponseStatus::IncorrectValue);
    assert_eq!(DeviceTimeout::from_code(3), Some(DeviceTimeout::Mins8));
    assert_eq!(DeviceTimeout::Mins8.code(), 3);
    assert_eq!(DeviceTimeout::from_code(15), None);
}

#[test]
fn broadcast_is_read_from_the_destination() {
    assert_eq!(BROADCAST_ROUTERS, 0xfffc);
    assert!(NwkAddress(BROADCAST_ROUTERS).is_broadcast());
    assert!(!NwkAddress(BROADCAST_ROUTERS).is_unicast());
    let mut c = ctx();
    let h = NwkHeader::cmd(&mut c, true, NwkAddress(0xffff), None, None, None, Some(1));
    let f = NwkFrame::new_cmd_frame(h, Command::Leave(Leave { rejoin: false, request: false, remove_children: false }));
    assert!(f.is_broadcast());
    assert!(!f.is_unicast());
    assert_eq!(ExtendedAddress::from(7u64), ExtendedAddress::new(7));
}

#[test]
fn a_channel_mask_gives_back_its_page_and_channels() {
    let m = ChannelMask::new(ChannelPage::ChannelPage2, &[Channel::Channel11, Channel::Channel26, Channel::Channel0]);
    assert_eq!(m.get_page(), ChannelPage::ChannelPage2);
    assert!(m.channel_is_set(Channel::Channel11));
    assert!(m.channel_is_set(Channel::Channel26));
    assert!(m.channel_is_set(Channel::Channel0));
    assert!(!m.channel_is_set(Channel::Channel12));
    assert_eq!(ChannelMask::new(ChannelPage::ChannelPage1, &[]).get_page(), ChannelPage::ChannelPage1);
}
