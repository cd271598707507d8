//! The payloads of NWK command frames: what each command holds and how it
//! is written on the wire, one identifier byte first.
use vstd::prelude::*;

use crate::bytes::{
    le_value, spec_u16_at, spec_u64_at, spec_u8_at, u16_at, u16_le, u64_at, u64_le, u8_at,
    write_u16, write_u64, write_u8, ParseError,
};
use crate::collections::Vec;
use crate::common::{ExtendedAddress, NwkAddress, PanId};
use crate::mac::MacCapabilities;

pub mod link_power_delta;
pub mod link_status;
pub mod route_reply;
pub mod route_request;
pub mod roundtrip;

pub use self::link_power_delta::CommandOptions as LinkPowerDeltaOptions;
pub use self::link_status::CommandOptions as LinkStatusOptions;
pub use self::route_reply::CommandOptions as RouteReplyOptions;
pub use self::route_request::CommandOptions as RouteRequestOptions;

verus! {

// ---------------------------------------------------------------- route request
/// The many-to-one sub-field of a route request.
#[derive(PartialEq, Eq, Clone, Copy, Debug, Structural)]
pub enum ManyToOne {
    NotManyToOne,
    ManyToOneRouteRecordSupported,
    ManyToOneRouteRecordNotSupported,
}

impl ManyToOne {
    pub open spec fn spec_code(self) -> u8 {
        match self {
            ManyToOne::NotManyToOne => 0,
            ManyToOne::ManyToOneRouteRecordSupported => 1,
            ManyToOne::ManyToOneRouteRecordNotSupported => 2,
        }
    }
}

pub open spec fn bflag(b: bool, w: u8) -> u8 {
    if b {
        w
    } else {
        0
    }
}

pub open spec fn bit_at(v: u8, w: u8) -> bool {
    (v / w) % 2 == 1
}

/// The route request command.
#[derive(Clone, Copy, Debug, PartialEq, Eq, Structural)]
pub struct RouteRequest {
    pub command_options: RouteRequestOptions,
    pub route_request_id: u8,
    pub dst_addr: NwkAddress,
    pub path_cost: u8,
    pub destination_ieee_address: Option<ExtendedAddress>,
}

impl RouteRequest {
    pub open spec fn spec_is_unicast(self) -> bool {
        !self.command_options.multicast && !self.dst_addr.spec_is_broadcast()
    }

    pub fn is_unicast(&self) -> (r: bool)
        ensures
            r == self.spec_is_unicast(),
    {
        self.command_options.multicast == false && self.dst_addr.is_unicast()
    }

    pub fn is_multicast(&self) -> (r: bool)
        ensures
            r == self.command_options.multicast,
    {
        self.command_options.multicast
    }

    pub fn is_many_to_one(&self) -> (r: bool)
        ensures
            r == self.dst_addr.spec_is_broadcast(),
    {
        self.dst_addr.is_broadcast()
    }

    pub fn no_route_cache(&self) -> (r: bool)
        ensures
            r == (self.command_options.many_to_one == ManyToOne::ManyToOneRouteRecordNotSupported),
    {
        self.command_options.many_to_one == ManyToOne::ManyToOneRouteRecordNotSupported
    }

    pub open spec fn spec_bytes(self) -> Seq<u8> {
        seq![self.command_options.spec_to_u8(), self.route_request_id] + u16_le(self.dst_addr.0)
            + seq![self.path_cost] + opt_u64_bytes(self.destination_ieee_address)
    }
}

pub open spec fn opt_u64_bytes(a: Option<ExtendedAddress>) -> Seq<u8> {
    match a {
        Some(a) => u64_le(a.0),
        None => Seq::empty(),
    }
}

pub open spec fn spec_opt_u64(s: Seq<u8>, off: int, present: bool) -> Result<
    (Option<ExtendedAddress>, int),
    ParseError,
> {
    if !present {
        Ok((None, off))
    } else {
        match spec_u64_at(s, off) {
            Ok(v) => Ok((Some(ExtendedAddress(v)), off + 8)),
            Err(e) => Err(e),
        }
    }
}

fn parse_opt_u64(bytes: &[u8], off: usize, present: bool) -> (r: Result<
    (Option<ExtendedAddress>, usize),
    ParseError,
>)
    ensures
        match r {
            Ok((v, o)) => spec_opt_u64(bytes@, off as int, present) == Ok::<
                (Option<ExtendedAddress>, int),
                ParseError,
            >((v, o as int)),
            Err(e) => spec_opt_u64(bytes@, off as int, present) == Err::<
                (Option<ExtendedAddress>, int),
                ParseError,
            >(e),
        },
{
    if !present {
        return Ok((None, off));
    }
    match u64_at(bytes, off) {
        Ok(v) => Ok((Some(ExtendedAddress(v)), off + 8)),
        Err(e) => Err(e),
    }
}

fn write_opt_u64(out: &mut std::vec::Vec<u8>, a: Option<ExtendedAddress>)
    ensures
        final(out)@ == old(out)@ + opt_u64_bytes(a),
{
    match a {
        Some(a) => write_u64(out, a.0),
        None => {
            assert(old(out)@ + opt_u64_bytes(a) =~= old(out)@);
        },
    }
}

/// A route request payload at `off`.
pub open spec fn spec_parse_route_request(s: Seq<u8>, off: int) -> Result<
    (RouteRequest, int),
    ParseError,
> {
    match spec_u8_at(s, off) {
        Err(e) => Err(e),
        Ok(o) => match RouteRequestOptions::spec_from_u8(o) {
            Err(e) => Err(e),
            Ok(opts) => match spec_u8_at(s, off + 1) {
                Err(e) => Err(e),
                Ok(id) => match spec_u16_at(s, off + 2) {
                    Err(e) => Err(e),
                    Ok(dst) => match spec_u8_at(s, off + 4) {
                        Err(e) => Err(e),
                        Ok(cost) => match spec_opt_u64(s, off + 5, opts.destination_ieee) {
                            Err(e) => Err(e),
                            Ok((ieee, end)) => Ok(
                                (
                                    RouteRequest {
                                        command_options: opts,
                                        route_request_id: id,
                                        dst_addr: NwkAddress(dst),
                                        path_cost: cost,
                                        destination_ieee_address: ieee,
                                    },
                                    end,
                                ),
                            ),
                        },
                    },
                },
            },
        },
    }
}

fn parse_route_request(bytes: &[u8], off: usize) -> (r: Result<(RouteRequest, usize), ParseError>)
    ensures
        match r {
            Ok((v, o)) => spec_parse_route_request(bytes@, off as int) == Ok::<
                (RouteRequest, int),
                ParseError,
            >((v, o as int)),
            Err(e) => spec_parse_route_request(bytes@, off as int) == Err::<
                (RouteRequest, int),
                ParseError,
            >(e),
        },
{
    let o = match u8_at(bytes, off) {
        Ok(v) => v,
        Err(e) => return Err(e),
    };
    let opts = match RouteRequestOptions::from_u8(o) {
        Ok(v) => v,
        Err(e) => return Err(e),
    };
    let id = match u8_at(bytes, off + 1) {
        Ok(v) => v,
        Err(e) => return Err(e),
    };
    let dst = match u16_at(bytes, off + 2) {
        Ok(v) => v,
        Err(e) => return Err(e),
    };
    let cost = match u8_at(bytes, off + 4) {
        Ok(v) => v,
        Err(e) => return Err(e),
    };
    let (ieee, end) = match parse_opt_u64(bytes, off + 5, opts.destination_ieee) {
        Ok(v) => v,
        Err(e) => return Err(e),
    };
    Ok(
        (
            RouteRequest {
                command_options: opts,
                route_request_id: id,
                dst_addr: NwkAddress(dst),
                path_cost: cost,
                destination_ieee_address: ieee,
            },
            end,
        ),
    )
}

fn write_route_request(out: &mut std::vec::Vec<u8>, c: &RouteRequest)
    ensures
        final(out)@ == old(out)@ + c.spec_bytes(),
{
    let ghost start = out@;
    write_u8(out, c.command_options.to_u8());
    write_u8(out, c.route_request_id);
    write_u16(out, c.dst_addr.0);
    write_u8(out, c.path_cost);
    write_opt_u64(out, c.destination_ieee_address);
    assert(out@ =~= start + c.spec_bytes());
}

// ---------------------------------------------------------------- route reply

/// The route reply command.
#[derive(Clone, Copy, Debug, PartialEq, Eq, Structural)]
pub struct RouteReply {
    pub command_options: RouteReplyOptions,
    pub route_request_id: u8,
    pub originator_address: NwkAddress,
    pub responder_address: NwkAddress,
    pub path_cost: u8,
    pub originator_ieee_address: Option<ExtendedAddress>,
    pub responder_ieee_address: Option<ExtendedAddress>,
}

impl RouteReply {
    pub open spec fn spec_bytes(self) -> Seq<u8> {
        seq![self.command_options.spec_to_u8(), self.route_request_id] + u16_le(
            self.originator_address.0,
        ) + u16_le(self.responder_address.0) + seq![self.path_cost] + opt_u64_bytes(
            self.originator_ieee_address,
        ) + opt_u64_bytes(self.responder_ieee_address)
    }
}

pub open spec fn spec_parse_route_reply(s: Seq<u8>, off: int) -> Result<(RouteReply, int), ParseError> {
    match spec_u8_at(s, off) {
        Err(e) => Err(e),
        Ok(o) => match spec_u8_at(s, off + 1) {
            Err(e) => Err(e),
            Ok(id) => match spec_u16_at(s, off + 2) {
                Err(e) => Err(e),
                Ok(orig) => match spec_u16_at(s, off + 4) {
                    Err(e) => Err(e),
                    Ok(resp) => match spec_u8_at(s, off + 6) {
                        Err(e) => Err(e),
                        Ok(cost) => {
                            let opts = RouteReplyOptions::spec_from_u8(o);
                            match spec_opt_u64(s, off + 7, opts.originator_ieee) {
                                Err(e) => Err(e),
                                Ok((oi, o1)) => match spec_opt_u64(s, o1, opts.responder_ieee) {
                                    Err(e) => Err(e),
                                    Ok((ri, o2)) => Ok(
                                        (
                                            RouteReply {
                                                command_options: opts,
                                                route_request_id: id,
                                                originator_address: NwkAddress(orig),
                                                responder_address: NwkAddress(resp),
                                                path_cost: cost,
                                                originator_ieee_address: oi,
                                                responder_ieee_address: ri,
                                            },
                                            o2,
                                        ),
                                    ),
                                },
                            }
                        },
                    },
                },
            },
        },
    }
}

fn parse_route_reply(bytes: &[u8], off: usize) -> (r: Result<(RouteReply, usize), ParseError>)
    ensures
        match r {
            Ok((v, o)) => spec_parse_route_reply(bytes@, off as int) == Ok::<
                (RouteReply, int),
                ParseError,
            >((v, o as int)),
            Err(e) => spec_parse_route_reply(bytes@, off as int) == Err::<
                (RouteReply, int),
                ParseError,
            >(e),
        },
{
    let o = match u8_at(bytes, off) {
        Ok(v) => v,
        Err(e) => return Err(e),
    };
    let id = match u8_at(bytes, off + 1) {
        Ok(v) => v,
        Err(e) => return Err(e),
    };
    let orig = match u16_at(bytes, off + 2) {
        Ok(v) => v,
        Err(e) => return Err(e),
    };
    let resp = match u16_at(bytes, off + 4) {
        Ok(v) => v,
        Err(e) => return Err(e),
    };
    let cost = match u8_at(bytes, off + 6) {
        Ok(v) => v,
        Err(e) => return Err(e),
    };
    let opts = RouteReplyOptions::from_u8(o);
    let (oi, o1) = match parse_opt_u64(bytes, off + 7, opts.originator_ieee) {
        Ok(v) => v,
        Err(e) => return Err(e),
    };
    let (ri, o2) = match parse_opt_u64(bytes, o1, opts.responder_ieee) {
        Ok(v) => v,
        Err(e) => return Err(e),
    };
    Ok(
        (
            RouteReply {
                command_options: opts,
                route_request_id: id,
                originator_address: NwkAddress(orig),
                responder_address: NwkAddress(resp),
                path_cost: cost,
                originator_ieee_address: oi,
                responder_ieee_address: ri,
            },
            o2,
        ),
    )
}

fn write_route_reply(out: &mut std::vec::Vec<u8>, c: &RouteReply)
    ensures
        final(out)@ == old(out)@ + c.spec_bytes(),
{
    let ghost start = out@;
    write_u8(out, c.command_options.to_u8());
    write_u8(out, c.route_request_id);
    write_u16(out, c.originator_address.0);
    write_u16(out, c.responder_address.0);
    write_u8(out, c.path_cost);
    write_opt_u64(out, c.originator_ieee_address);
    write_opt_u64(out, c.responder_ieee_address);
    assert(out@ =~= start + c.spec_bytes());
}

// ---------------------------------------------------------------- network status
/// The status a network status command reports.
#[derive(Debug, Clone, Copy, PartialEq, Eq, Structural)]
pub enum NetworkStatusCode {
    NoRouteAvailable,
    TreeLinkFailure,
    NonTreeLinkFailure,
    LowBatteryLevel,
    NoRoutingCapacity,
    NoIndirectCapacity,
    IndirectTransactionExpiry,
    TargetDeviceUnavailable,
    TargetAddressUnallocated,
    ParentLinkFailure,
    ValidateRoute,
    SourceRouteFailure,
    ManyToOneRouteFailure,
    AddressConflict,
    VerifyAddresses,
    PanIdentifierUpdate,
    NetworkAddressUpdate,
    BadFrameCounter,
    BadKeySequenceNumber,
    UnknownCommand,
}

impl NetworkStatusCode {
    pub open spec fn spec_code(self) -> u8 {
        match self {
            NetworkStatusCode::NoRouteAvailable => 0x00,
            NetworkStatusCode::TreeLinkFailure => 0x01,
            NetworkStatusCode::NonTreeLinkFailure => 0x02,
            NetworkStatusCode::LowBatteryLevel => 0x03,
            NetworkStatusCode::NoRoutingCapacity => 0x04,
            NetworkStatusCode::NoIndirectCapacity => 0x05,
            NetworkStatusCode::IndirectTransactionExpiry => 0x06,
            NetworkStatusCode::TargetDeviceUnavailable => 0x07,
            NetworkStatusCode::TargetAddressUnallocated => 0x08,
            NetworkStatusCode::ParentLinkFailure => 0x09,
            NetworkStatusCode::ValidateRoute => 0x0a,
            NetworkStatusCode::SourceRouteFailure => 0x0b,
            NetworkStatusCode::ManyToOneRouteFailure => 0x0c,
            NetworkStatusCode::AddressConflict => 0x0d,
            NetworkStatusCode::VerifyAddresses => 0x0e,
            NetworkStatusCode::PanIdentifierUpdate => 0x0f,
            NetworkStatusCode::NetworkAddressUpdate => 0x10,
            NetworkStatusCode::BadFrameCounter => 0x11,
            NetworkStatusCode::BadKeySequenceNumber => 0x12,
            NetworkStatusCode::UnknownCommand => 0x13,
        }
    }

    pub fn code(&self) -> (r: u8)
        ensures
            r == self.spec_code(),
    {
        match self {
            NetworkStatusCode::NoRouteAvailable => 0x00,
            NetworkStatusCode::TreeLinkFailure => 0x01,
            NetworkStatusCode::NonTreeLinkFailure => 0x02,
            NetworkStatusCode::LowBatteryLevel => 0x03,
            NetworkStatusCode::NoRoutingCapacity => 0x04,
            NetworkStatusCode::NoIndirectCapacity => 0x05,
            NetworkStatusCode::IndirectTransactionExpiry => 0x06,
            NetworkStatusCode::TargetDeviceUnavailable => 0x07,
            NetworkStatusCode::TargetAddressUnallocated => 0x08,
            NetworkStatusCode::ParentLinkFailure => 0x09,
            NetworkStatusCode::ValidateRoute => 0x0a,
            NetworkStatusCode::SourceRouteFailure => 0x0b,
            NetworkStatusCode::ManyToOneRouteFailure => 0x0c,
            NetworkStatusCode::AddressConflict => 0x0d,
            NetworkStatusCode::VerifyAddresses => 0x0e,
            NetworkStatusCode::PanIdentifierUpdate => 0x0f,
            NetworkStatusCode::NetworkAddressUpdate => 0x10,
            NetworkStatusCode::BadFrameCounter => 0x11,
            NetworkStatusCode::BadKeySequenceNumber => 0x12,
            NetworkStatusCode::UnknownCommand => 0x13,
        }
    }

    /// The status with code `v`; there is none above `0x13`.
    pub open spec fn spec_from_code(v: u8) -> Option<NetworkStatusCode> {
        if v == 0x00 {
            Some(NetworkStatusCode::NoRouteAvailable)
        } else if v == 0x01 {
            Some(NetworkStatusCode::TreeLinkFailure)
        } else if v == 0x02 {
            Some(NetworkStatusCode::NonTreeLinkFailure)
        } else if v == 0x03 {
            Some(NetworkStatusCode::LowBatteryLevel)
        } else if v == 0x04 {
            Some(NetworkStatusCode::NoRoutingCapacity)
        } else if v == 0x05 {
            Some(NetworkStatusCode::NoIndirectCapacity)
        } else if v == 0x06 {
            Some(NetworkStatusCode::IndirectTransactionExpiry)
        } else if v == 0x07 {
            Some(NetworkStatusCode::TargetDeviceUnavailable)
        } else if v == 0x08 {
            Some(NetworkStatusCode::TargetAddressUnallocated)
        } else if v == 0x09 {
            Some(NetworkStatusCode::ParentLinkFailure)
        } else if v == 0x0a {
            Some(NetworkStatusCode::ValidateRoute)
        } else if v == 0x0b {
            Some(NetworkStatusCode::SourceRouteFailure)
        } else if v == 0x0c {
            Some(NetworkStatusCode::ManyToOneRouteFailure)
        } else if v == 0x0d {
            Some(NetworkStatusCode::AddressConflict)
        } else if v == 0x0e {
            Some(NetworkStatusCode::VerifyAddresses)
        } else if v == 0x0f {
            Some(NetworkStatusCode::PanIdentifierUpdate)
        } else if v == 0x10 {
            Some(NetworkStatusCode::NetworkAddressUpdate)
        } else if v == 0x11 {
            Some(NetworkStatusCode::BadFrameCounter)
        } else if v == 0x12 {
            Some(NetworkStatusCode::BadKeySequenceNumber)
        } else if v == 0x13 {
            Some(NetworkStatusCode::UnknownCommand)
        } else {
            None
        }
    }

    pub fn from_code(v: u8) -> (r: Option<NetworkStatusCode>)
        ensures
            r == NetworkStatusCode::spec_from_code(v),
    {
        if v == 0x00 {
            Some(NetworkStatusCode::NoRouteAvailable)
        } else if v == 0x01 {
            Some(NetworkStatusCode::TreeLinkFailure)
        } else if v == 0x02 {
            Some(NetworkStatusCode::NonTreeLinkFailure)
        } else if v == 0x03 {
            Some(NetworkStatusCode::LowBatteryLevel)
        } else if v == 0x04 {
            Some(NetworkStatusCode::NoRoutingCapacity)
        } else if v == 0x05 {
            Some(NetworkStatusCode::NoIndirectCapacity)
        } else if v == 0x06 {
            Some(NetworkStatusCode::IndirectTransactionExpiry)
        } else if v == 0x07 {
            Some(NetworkStatusCode::TargetDeviceUnavailable)
        } else if v == 0x08 {
            Some(NetworkStatusCode::TargetAddressUnallocated)
        } else if v == 0x09 {
            Some(NetworkStatusCode::ParentLinkFailure)
        } else if v == 0x0a {
            Some(NetworkStatusCode::ValidateRoute)
        } else if v == 0x0b {
            Some(NetworkStatusCode::SourceRouteFailure)
        } else if v == 0x0c {
            Some(NetworkStatusCode::ManyToOneRouteFailure)
        } else if v == 0x0d {
            Some(NetworkStatusCode::AddressConflict)
        } else if v == 0x0e {
            Some(NetworkStatusCode::VerifyAddresses)
        } else if v == 0x0f {
            Some(NetworkStatusCode::PanIdentifierUpdate)
        } else if v == 0x10 {
            Some(NetworkStatusCode::NetworkAddressUpdate)
        } else if v == 0x11 {
            Some(NetworkStatusCode::BadFrameCounter)
        } else if v == 0x12 {
            Some(NetworkStatusCode::BadKeySequenceNumber)
        } else if v == 0x13 {
            Some(NetworkStatusCode::UnknownCommand)
        } else {
            None
        }
    }
}

/// Each network status is written with its Zigbee code, and each of those
/// codes reads back as its status; no code reads back as a status whose
/// code it is not.
pub proof fn lemma_network_status_codes()
    ensures
        NetworkStatusCode::NoRouteAvailable.spec_code() == 0x00u8,
        NetworkStatusCode::TreeLinkFailure.spec_code() == 0x01u8,
        NetworkStatusCode::NonTreeLinkFailure.spec_code() == 0x02u8,
        NetworkStatusCode::LowBatteryLevel.spec_code() == 0x03u8,
        NetworkStatusCode::NoRoutingCapacity.spec_code() == 0x04u8,
        NetworkStatusCode::NoIndirectCapacity.spec_code() == 0x05u8,
        NetworkStatusCode::IndirectTransactionExpiry.spec_code() == 0x06u8,
        NetworkStatusCode::TargetDeviceUnavailable.spec_code() == 0x07u8,
        NetworkStatusCode::TargetAddressUnallocated.spec_code() == 0x08u8,
        NetworkStatusCode::ParentLinkFailure.spec_code() == 0x09u8,
        NetworkStatusCode::ValidateRoute.spec_code() == 0x0au8,
        NetworkStatusCode::SourceRouteFailure.spec_code() == 0x0bu8,
        NetworkStatusCode::ManyToOneRouteFailure.spec_code() == 0x0cu8,
        NetworkStatusCode::AddressConflict.spec_code() == 0x0du8,
        NetworkStatusCode::VerifyAddresses.spec_code() == 0x0eu8,
        NetworkStatusCode::PanIdentifierUpdate.spec_code() == 0x0fu8,
        NetworkStatusCode::NetworkAddressUpdate.spec_code() == 0x10u8,
        NetworkStatusCode::BadFrameCounter.spec_code() == 0x11u8,
        NetworkStatusCode::BadKeySequenceNumber.spec_code() == 0x12u8,
        NetworkStatusCode::UnknownCommand.spec_code() == 0x13u8,
        NetworkStatusCode::spec_from_code(0x00u8) == Some(NetworkStatusCode::NoRouteAvailable),
        NetworkStatusCode::spec_from_code(0x01u8) == Some(NetworkStatusCode::TreeLinkFailure),
        NetworkStatusCode::spec_from_code(0x02u8) == Some(NetworkStatusCode::NonTreeLinkFailure),
        NetworkStatusCode::spec_from_code(0x03u8) == Some(NetworkStatusCode::LowBatteryLevel),
        NetworkStatusCode::spec_from_code(0x04u8) == Some(NetworkStatusCode::NoRoutingCapacity),
        NetworkStatusCode::spec_from_code(0x05u8) == Some(NetworkStatusCode::NoIndirectCapacity),
        NetworkStatusCode::spec_from_code(0x06u8) == Some(NetworkStatusCode::IndirectTransactionExpiry),
        NetworkStatusCode::spec_from_code(0x07u8) == Some(NetworkStatusCode::TargetDeviceUnavailable),
        NetworkStatusCode::spec_from_code(0x08u8) == Some(NetworkStatusCode::TargetAddressUnallocated),
        NetworkStatusCode::spec_from_code(0x09u8) == Some(NetworkStatusCode::ParentLinkFailure),
        NetworkStatusCode::spec_from_code(0x0au8) == Some(NetworkStatusCode::ValidateRoute),
        NetworkStatusCode::spec_from_code(0x0bu8) == Some(NetworkStatusCode::SourceRouteFailure),
        NetworkStatusCode::spec_from_code(0x0cu8) == Some(NetworkStatusCode::ManyToOneRouteFailure),
        NetworkStatusCode::spec_from_code(0x0du8) == Some(NetworkStatusCode::AddressConflict),
        NetworkStatusCode::spec_from_code(0x0eu8) == Some(NetworkStatusCode::VerifyAddresses),
        NetworkStatusCode::spec_from_code(0x0fu8) == Some(NetworkStatusCode::PanIdentifierUpdate),
        NetworkStatusCode::spec_from_code(0x10u8) == Some(NetworkStatusCode::NetworkAddressUpdate),
        NetworkStatusCode::spec_from_code(0x11u8) == Some(NetworkStatusCode::BadFrameCounter),
        NetworkStatusCode::spec_from_code(0x12u8) == Some(NetworkStatusCode::BadKeySequenceNumber),
        NetworkStatusCode::spec_from_code(0x13u8) == Some(NetworkStatusCode::UnknownCommand),
        forall|v: u8| #[trigger] NetworkStatusCode::spec_from_code(v) matches Some(s) ==> s.spec_code() == v,
{
}

/// The network status command.
#[derive(Debug, Clone, Copy, PartialEq, Eq, Structural)]
pub struct NetworkStatus {
    pub status_code: NetworkStatusCode,
    pub destination_address: NwkAddress,
}

/// What is needed to send a network status command.
pub struct NetworkStatusCmd {
    pub dest_short_addr: NwkAddress,
    pub dest_extended_addr: Option<ExtendedAddress>,
    pub status_code: NetworkStatusCode,
    pub destination_address: NwkAddress,
}

// ---------------------------------------------------------------- leave
/// The leave command: rejoin in bit 5, request in bit 6, remove children in bit 7.
#[derive(Clone, Copy, Debug, PartialEq, Eq, Structural)]
pub struct Leave {
    pub rejoin: bool,
    pub request: bool,
    pub remove_children: bool,
}

impl Leave {
    pub open spec fn spec_to_u8(self) -> u8 {
        (bflag(self.rejoin, 32) + bflag(self.request, 64) + bflag(self.remove_children, 128)) as u8
    }

    pub open spec fn spec_from_u8(v: u8) -> Leave {
        Leave { rejoin: bit_at(v, 32), request: bit_at(v, 64), remove_children: bit_at(v, 128) }
    }

    pub fn to_u8(&self) -> (r: u8)
        ensures
            r == self.spec_to_u8(),
    {
        let a: u8 = if self.rejoin {
            32
        } else {
            0
        };
        let b: u8 = if self.request {
            64
        } else {
            0
        };
        let c: u8 = if self.remove_children {
            128
        } else {
            0
        };
        a + b + c
    }

    pub fn from_u8(v: u8) -> (r: Leave)
        ensures
            r == Leave::spec_from_u8(v),
    {
        Leave { rejoin: (v / 32) % 2 == 1, request: (v / 64) % 2 == 1, remove_children: v / 128 == 1 }
    }
}

// ---------------------------------------------------------------- rejoin
/// The answer to a rejoin request.
#[derive(Clone, Copy, Debug, PartialEq, Eq, Structural)]
pub enum RejoinResponse {
    Success(NwkAddress),
    PanAtCapacity,
    AccessDenied,
}

impl RejoinResponse {
    /// The address (all ones unless the rejoin succeeded), then the status.
    pub open spec fn spec_bytes(self) -> Seq<u8> {
        match self {
            RejoinResponse::Success(a) => u16_le(a.0) + seq![0u8],
            RejoinResponse::PanAtCapacity => u16_le(0xffff) + seq![1u8],
            RejoinResponse::AccessDenied => u16_le(0xffff) + seq![2u8],
        }
    }
}

pub open spec fn spec_parse_rejoin_response(s: Seq<u8>, off: int) -> Result<
    (RejoinResponse, int),
    ParseError,
> {
    match spec_u16_at(s, off) {
        Err(e) => Err(e),
        Ok(a) => match spec_u8_at(s, off + 2) {
            Err(e) => Err(e),
            Ok(st) => if st == 0 {
                Ok((RejoinResponse::Success(NwkAddress(a)), off + 3))
            } else if st == 1 {
                Ok((RejoinResponse::PanAtCapacity, off + 3))
            } else if st == 2 {
                Ok((RejoinResponse::AccessDenied, off + 3))
            } else {
                Err(ParseError::BadInput)
            },
        },
    }
}

/// What is needed to send a rejoin request.
pub struct RejoinRequestCmd {
    pub dest_short_addr: NwkAddress,
    pub dest_ext_addr: ExtendedAddress,
    pub capability_information: MacCapabilities,
}

/// What is needed to send a rejoin response.
pub struct RejoinResponseCmd {
    pub dst_addr: NwkAddress,
    pub ext_dst_addr: ExtendedAddress,
    pub rejoin_response: RejoinResponse,
}

// ---------------------------------------------------------------- link status
/// The cost of a link, 1 (best) to 7, or unknown.
#[derive(Debug, Clone, Copy, PartialEq, Eq, Structural)]
pub enum LinkCost {
    Unknown,
    _1,
    _2,
    _3,
    _4,
    _5,
    _6,
    _7,
}

impl LinkCost {
    pub open spec fn spec_value(self) -> u8 {
        match self {
            LinkCost::Unknown => 0,
            LinkCost::_1 => 1,
            LinkCost::_2 => 2,
            LinkCost::_3 => 3,
            LinkCost::_4 => 4,
            LinkCost::_5 => 5,
            LinkCost::_6 => 6,
            LinkCost::_7 => 7,
        }
    }

    pub open spec fn spec_from_value(v: u8) -> LinkCost {
        if v == 0 {
            LinkCost::Unknown
        } else if v == 1 {
            LinkCost::_1
        } else if v == 2 {
            LinkCost::_2
        } else if v == 3 {
            LinkCost::_3
        } else if v == 4 {
            LinkCost::_4
        } else if v == 5 {
            LinkCost::_5
        } else if v == 6 {
            LinkCost::_6
        } else {
            LinkCost::_7
        }
    }

    pub fn value(&self) -> (r: u8)
        ensures
            r == self.spec_value(),
    {
        match self {
            LinkCost::Unknown => 0,
            LinkCost::_1 => 1,
            LinkCost::_2 => 2,
            LinkCost::_3 => 3,
            LinkCost::_4 => 4,
            LinkCost::_5 => 5,
            LinkCost::_6 => 6,
            LinkCost::_7 => 7,
        }
    }

    pub fn from_value(v: u8) -> (r: LinkCost)
        ensures
            r == LinkCost::spec_from_value(v),
    {
        if v == 0 {
            LinkCost::Unknown
        } else if v == 1 {
            LinkCost::_1
        } else if v == 2 {
            LinkCost::_2
        } else if v == 3 {
            LinkCost::_3
        } else if v == 4 {
            LinkCost::_4
        } else if v == 5 {
            LinkCost::_5
        } else if v == 6 {
            LinkCost::_6
        } else {
            LinkCost::_7
        }
    }
}

impl Default for LinkCost {
    fn default() -> (r: Self)
        ensures
            r == LinkCost::Unknown,
    {
        LinkCost::Unknown
    }
}

/// The link costs in both directions: incoming in bits 0-2, outgoing in bits 4-6.
#[derive(Debug, Clone, Copy, PartialEq, Eq, Structural)]
pub struct LinkStatus {
    pub incoming_cost: LinkCost,
    pub outgoing_cost: LinkCost,
}

impl LinkStatus {
    pub open spec fn spec_to_u8(self) -> u8 {
        (self.incoming_cost.spec_value() + 16 * self.outgoing_cost.spec_value()) as u8
    }

    pub open spec fn spec_from_u8(v: u8) -> LinkStatus {
        LinkStatus {
            incoming_cost: LinkCost::spec_from_value(v % 8),
            outgoing_cost: LinkCost::spec_from_value((v / 16) % 8),
        }
    }

    pub fn to_u8(&self) -> (r: u8)
        ensures
            r == self.spec_to_u8(),
    {
        self.incoming_cost.value() + 16 * self.outgoing_cost.value()
    }

    pub fn from_u8(v: u8) -> (r: LinkStatus)
        ensures
            r == LinkStatus::spec_from_u8(v),
    {
        LinkStatus {
            incoming_cost: LinkCost::from_value(v % 8),
            outgoing_cost: LinkCost::from_value((v / 16) % 8),
        }
    }
}

/// A neighbor and the link costs to and from it.
#[derive(Debug, Clone, Copy, PartialEq, Eq, Structural)]
pub struct LinkStatusEntry {
    pub neighbor_address: NwkAddress,
    pub link_status: LinkStatus,
}

/// The link status command: the options and up to 16 entries.
pub struct LinkStatusCmd {
    pub command_options: LinkStatusOptions,
    pub entries: Vec<LinkStatusEntry, 16>,
}

// ---------------------------------------------------------------- network report / update
/// The report command identifier (three bits).
#[derive(Debug, Clone, Copy, PartialEq, Eq, Structural)]
pub enum ReportCommandIdentifier {
    PanIdentifierConflict,
}

/// Network report and update options: a count in bits 0-4 and the command
/// identifier in bits 5-7.
#[derive(Debug, Clone, Copy, PartialEq, Eq, Structural)]
pub struct NetworkReportOptions {
    pub count: u8,
    pub command_identifier: ReportCommandIdentifier,
}

impl NetworkReportOptions {
    pub open spec fn spec_to_u8(self) -> u8 {
        self.count % 32
    }

    pub open spec fn spec_from_u8(v: u8) -> Result<NetworkReportOptions, ParseError> {
        if v / 32 != 0 {
            Err(ParseError::BadInput)
        } else {
            Ok(
                NetworkReportOptions {
                    count: v % 32,
                    command_identifier: ReportCommandIdentifier::PanIdentifierConflict,
                },
            )
        }
    }

    pub fn to_u8(&self) -> (r: u8)
        ensures
            r == self.spec_to_u8(),
    {
        self.count % 32
    }

    pub fn from_u8(v: u8) -> (r: Result<NetworkReportOptions, ParseError>)
        ensures
            r == NetworkReportOptions::spec_from_u8(v),
    {
        if v / 32 != 0 {
            Err(ParseError::BadInput)
        } else {
            Ok(
                NetworkReportOptions {
                    count: v % 32,
                    command_identifier: ReportCommandIdentifier::PanIdentifierConflict,
                },
            )
        }
    }
}

/// What a network report reports.
pub enum NetworkReportInformation {
    PanIdentifierConflict(Vec<PanId, 16>),
}

/// The network report command.
pub struct NetworkReport {
    pub options: NetworkReportOptions,
    pub extended_pan_id: ExtendedAddress,
    pub report_information: NetworkReportInformation,
}

/// The update command identifier.
#[derive(Debug, Clone, Copy, PartialEq, Eq, Structural)]
pub enum UpdateCommandIdentifier {
    PanIdentifierUpdate,
}

/// What a network update announces.
#[derive(Debug, Clone, Copy, PartialEq, Eq, Structural)]
pub enum UpdateInformation {
    PanIdentifierUpdate(PanId),
}

/// The network update command.
#[derive(Debug, Clone, Copy, PartialEq, Eq, Structural)]
pub struct NetworkUpdate {
    pub options: NetworkReportOptions,
    pub ext_pan_id: ExtendedAddress,
    pub update_id: u8,
    pub update_information: UpdateInformation,
}

impl NetworkUpdate {
    pub open spec fn spec_bytes(self) -> Seq<u8> {
        seq![self.options.spec_to_u8()] + u64_le(self.ext_pan_id.0) + seq![self.update_id]
            + match self.update_information {
            UpdateInformation::PanIdentifierUpdate(p) => u16_le(p.0),
        }
    }
}

pub open spec fn spec_parse_network_update(s: Seq<u8>, off: int) -> Result<
    (NetworkUpdate, int),
    ParseError,
> {
    match spec_u8_at(s, off) {
        Err(e) => Err(e),
        Ok(o) => match NetworkReportOptions::spec_from_u8(o) {
            Err(e) => Err(e),
            Ok(opts) => match spec_u64_at(s, off + 1) {
                Err(e) => Err(e),
                Ok(ext) => match spec_u8_at(s, off + 9) {
                    Err(e) => Err(e),
                    Ok(id) => match spec_u16_at(s, off + 10) {
                        Err(e) => Err(e),
                        Ok(pan) => Ok(
                            (
                                NetworkUpdate {
                                    options: opts,
                                    ext_pan_id: ExtendedAddress(ext),
                                    update_id: id,
                                    update_information: UpdateInformation::PanIdentifierUpdate(
                                        PanId(pan),
                                    ),
                                },
                                off + 12,
                            ),
                        ),
                    },
                },
            },
        },
    }
}

// ---------------------------------------------------------------- end device timeout
/// The timeout an end device asks its parent for.
#[derive(Clone, Copy, Debug, PartialEq, Eq, Structural)]
pub enum DeviceTimeout {
    Secs10,
    Mins2,
    Mins4,
    Mins8,
    Mins16,
    Mins32,
    Mins64,
    Mins128,
    Mins256,
    Mins512,
    Mins1024,
    Mins2048,
    Mins4096,
    Mins8192,
    Mins16384,
}

/// `2^n`.
pub open spec fn pow2(n: nat) -> nat
    decreases n,
{
    if n == 0 {
        1
    } else {
        2 * pow2((n - 1) as nat)
    }
}

impl DeviceTimeout {
    pub open spec fn spec_code(self) -> u8 {
        match self {
            DeviceTimeout::Secs10 => 0,
            DeviceTimeout::Mins2 => 1,
            DeviceTimeout::Mins4 => 2,
            DeviceTimeout::Mins8 => 3,
            DeviceTimeout::Mins16 => 4,
            DeviceTimeout::Mins32 => 5,
            DeviceTimeout::Mins64 => 6,
            DeviceTimeout::Mins128 => 7,
            DeviceTimeout::Mins256 => 8,
            DeviceTimeout::Mins512 => 9,
            DeviceTimeout::Mins1024 => 10,
            DeviceTimeout::Mins2048 => 11,
            DeviceTimeout::Mins4096 => 12,
            DeviceTimeout::Mins8192 => 13,
            DeviceTimeout::Mins16384 => 14,
        }
    }

    pub fn code(&self) -> (r: u8)
        ensures
            r == self.spec_code(),
    {
        match self {
            DeviceTimeout::Secs10 => 0,
            DeviceTimeout::Mins2 => 1,
            DeviceTimeout::Mins4 => 2,
            DeviceTimeout::Mins8 => 3,
            DeviceTimeout::Mins16 => 4,
            DeviceTimeout::Mins32 => 5,
            DeviceTimeout::Mins64 => 6,
            DeviceTimeout::Mins128 => 7,
            DeviceTimeout::Mins256 => 8,
            DeviceTimeout::Mins512 => 9,
            DeviceTimeout::Mins1024 => 10,
            DeviceTimeout::Mins2048 => 11,
            DeviceTimeout::Mins4096 => 12,
            DeviceTimeout::Mins8192 => 13,
            DeviceTimeout::Mins16384 => 14,
        }
    }

    pub open spec fn spec_from_code(v: u8) -> Option<DeviceTimeout> {
        if v == 0 {
            Some(DeviceTimeout::Secs10)
        } else if v == 1 {
            Some(DeviceTimeout::Mins2)
        } else if v == 2 {
            Some(DeviceTimeout::Mins4)
        } else if v == 3 {
            Some(DeviceTimeout::Mins8)
        } else if v == 4 {
            Some(DeviceTimeout::Mins16)
        } else if v == 5 {
            Some(DeviceTimeout::Mins32)
        } else if v == 6 {
            Some(DeviceTimeout::Mins64)
        } else if v == 7 {
            Some(DeviceTimeout::Mins128)
        } else if v == 8 {
            Some(DeviceTimeout::Mins256)
        } else if v == 9 {
            Some(DeviceTimeout::Mins512)
        } else if v == 10 {
            Some(DeviceTimeout::Mins1024)
        } else if v == 11 {
            Some(DeviceTimeout::Mins2048)
        } else if v == 12 {
            Some(DeviceTimeout::Mins4096)
        } else if v == 13 {
            Some(DeviceTimeout::Mins8192)
        } else if v == 14 {
            Some(DeviceTimeout::Mins16384)
        } else {
            None
        }
    }

    pub fn from_code(v: u8) -> (r: Option<DeviceTimeout>)
        ensures
            r == DeviceTimeout::spec_from_code(v),
    {
        if v == 0 {
            Some(DeviceTimeout::Secs10)
        } else if v == 1 {
            Some(DeviceTimeout::Mins2)
        } else if v == 2 {
            Some(DeviceTimeout::Mins4)
        } else if v == 3 {
            Some(DeviceTimeout::Mins8)
        } else if v == 4 {
            Some(DeviceTimeout::Mins16)
        } else if v == 5 {
            Some(DeviceTimeout::Mins32)
        } else if v == 6 {
            Some(DeviceTimeout::Mins64)
        } else if v == 7 {
            Some(DeviceTimeout::Mins128)
        } else if v == 8 {
            Some(DeviceTimeout::Mins256)
        } else if v == 9 {
            Some(DeviceTimeout::Mins512)
        } else if v == 10 {
            Some(DeviceTimeout::Mins1024)
        } else if v == 11 {
            Some(DeviceTimeout::Mins2048)
        } else if v == 12 {
            Some(DeviceTimeout::Mins4096)
        } else if v == 13 {
            Some(DeviceTimeout::Mins8192)
        } else if v == 14 {
            Some(DeviceTimeout::Mins16384)
        } else {
            None
        }
    }

    /// Ten seconds for the first timeout, `2^n` minutes for the n-th, in milliseconds.
    pub open spec fn spec_duration_ms(self) -> nat {
        if self.spec_code() == 0 {
            10_000
        } else {
            pow2(self.spec_code() as nat) * 60_000
        }
    }

    pub fn get_duration_ms(&self) -> (r: u64)
        ensures
            r == self.spec_duration_ms(),
    {
        let value = self.code();
        if value == 0 {
            return 10_000;
        }
        let mut p: u64 = 1;
        let mut i: u8 = 0;
        while i < value
            invariant
                i <= value <= 14,
                p == pow2(i as nat),
                p <= 16384,
            decreases value - i,
        {
            proof {
                lemma_pow2_bound(i as nat);
            }
            p = p * 2;
            i = i + 1;
            proof {
                lemma_pow2_bound(i as nat);
            }
        }
        p * 60_000
    }
}

proof fn lemma_pow2_bound(n: nat)
    requires
        n <= 14,
    ensures
        pow2(n) <= 16384,
{
    reveal_with_fuel(pow2, 15);
    if n == 0 {} else if n == 1 {} else if n == 2 {} else if n == 3 {} else if n == 4 {} else if n
        == 5 {} else if n == 6 {} else if n == 7 {} else if n == 8 {} else if n == 9 {} else if n
        == 10 {} else if n == 11 {} else if n == 12 {} else if n == 13 {} else {}
}

impl Default for DeviceTimeout {
    fn default() -> (r: Self)
        ensures
            r == DeviceTimeout::Secs10,
    {
        DeviceTimeout::Secs10
    }
}

/// The end device timeout request command.
#[derive(Debug, Clone, Copy, PartialEq, Eq, Structural)]
pub struct EndDeviceTimeoutRequest {
    pub requested_timeout: DeviceTimeout,
    pub end_device_configuration: u16,
}

/// The status of an end device timeout response.
#[derive(Debug, Copy, Clone, PartialEq, Eq, Structural)]
pub enum EndDeviceTimeoutResponseStatus {
    Success,
    IncorrectValue,
}

/// What a parent supports for keeping its children: bits 0 to 2.
#[derive(Debug, Copy, Clone, PartialEq, Eq, Structural)]
pub struct ParentInformation {
    pub mac_data_poll_keepalive_supported: bool,
    pub end_device_timeout_request_keepalive_supported: bool,
    pub power_negotiation_supported: bool,
}

impl ParentInformation {
    pub open spec fn spec_to_u8(self) -> u8 {
        (bflag(self.mac_data_poll_keepalive_supported, 1) + bflag(
            self.end_device_timeout_request_keepalive_supported,
            2,
        ) + bflag(self.power_negotiation_supported, 4)) as u8
    }

    pub open spec fn spec_from_u8(v: u8) -> ParentInformation {
        ParentInformation {
            mac_data_poll_keepalive_supported: v % 2 == 1,
            end_device_timeout_request_keepalive_supported: bit_at(v, 2),
            power_negotiation_supported: bit_at(v, 4),
        }
    }

    pub fn to_u8(&self) -> (r: u8)
        ensures
            r == self.spec_to_u8(),
    {
        let a: u8 = if self.mac_data_poll_keepalive_supported {
            1
        } else {
            0
        };
        let b: u8 = if self.end_device_timeout_request_keepalive_supported {
            2
        } else {
            0
        };
        let c: u8 = if self.power_negotiation_supported {
            4
        } else {
            0
        };
        a + b + c
    }

    pub fn from_u8(v: u8) -> (r: ParentInformation)
        ensures
            r == ParentInformation::spec_from_u8(v),
    {
        ParentInformation {
            mac_data_poll_keepalive_supported: v % 2 == 1,
            end_device_timeout_request_keepalive_supported: (v / 2) % 2 == 1,
            power_negotiation_supported: (v / 4) % 2 == 1,
        }
    }
}

impl Default for ParentInformation {
    fn default() -> (r: Self)
        ensures
            r == (ParentInformation {
                mac_data_poll_keepalive_supported: false,
                end_device_timeout_request_keepalive_supported: false,
                power_negotiation_supported: false,
            }),
    {
        ParentInformation {
            mac_data_poll_keepalive_supported: false,
            end_device_timeout_request_keepalive_supported: false,
            power_negotiation_supported: false,
        }
    }
}

/// The end device timeout response command.
#[derive(Debug, Copy, Clone, PartialEq, Eq, Structural)]
pub struct EndDeviceTimeoutResponse {
    pub status: EndDeviceTimeoutResponseStatus,
    pub parent_information: ParentInformation,
}

// ---------------------------------------------------------------- link power delta

/// A device and the change of transmit power it is asked for.
#[derive(Debug, Clone, Copy, PartialEq, Eq, Structural)]
pub struct DeltaEntry {
    pub device_address: NwkAddress,
    pub delta: u8,
}

/// The link power delta command.
pub struct LinkPowerDelta {
    pub command_options: LinkPowerDeltaOptions,
    pub power_list: Vec<DeltaEntry, 32>,
}

// ---------------------------------------------------------------- lists
/// How many entries of `size` bytes follow `off` up to the end, when they
/// are whole and at most `cap`.
pub open spec fn spec_rest_count(s: Seq<u8>, off: int, size: nat, cap: nat) -> Result<nat, ParseError> {
    if off > s.len() {
        Err(ParseError::BadOffset(off as usize))
    } else {
        let r = (s.len() - off) as nat;
        if r / size > cap {
            Err(ParseError::BadInput)
        } else if r % size != 0 {
            Err(ParseError::Incomplete)
        } else {
            Ok(r / size)
        }
    }
}

/// Whether `count` entries of `size` bytes at `off` are there and fit `cap`;
/// entries are read one by one, so a list longer than `cap` fails on the
/// first entry too many, or earlier when the input ends.
pub open spec fn spec_counted(s: Seq<u8>, off: int, count: nat, size: nat, cap: nat) -> Result<
    (),
    ParseError,
> {
    if count <= cap {
        if 0 <= off && off + size * count <= s.len() {
            Ok(())
        } else {
            Err(ParseError::Incomplete)
        }
    } else {
        if 0 <= off && off + size * (cap + 1) <= s.len() {
            Err(ParseError::BadInput)
        } else {
            Err(ParseError::Incomplete)
        }
    }
}

pub open spec fn spec_addr_at(s: Seq<u8>, o: int) -> NwkAddress {
    NwkAddress(le_value(s.subrange(o, o + 2)) as u16)
}

pub open spec fn spec_link_entry_at(s: Seq<u8>, o: int) -> LinkStatusEntry {
    LinkStatusEntry {
        neighbor_address: spec_addr_at(s, o),
        link_status: LinkStatus::spec_from_u8(s[o + 2]),
    }
}

pub open spec fn spec_delta_entry_at(s: Seq<u8>, o: int) -> DeltaEntry {
    DeltaEntry { device_address: spec_addr_at(s, o), delta: s[o + 2] }
}

pub open spec fn spec_pan_at(s: Seq<u8>, o: int) -> PanId {
    PanId(le_value(s.subrange(o, o + 2)) as u16)
}

pub open spec fn addrs_bytes(l: Seq<NwkAddress>) -> Seq<u8>
    decreases l.len(),
{
    if l.len() == 0 {
        Seq::empty()
    } else {
        addrs_bytes(l.drop_last()) + u16_le(l.last().0)
    }
}

pub open spec fn pans_bytes(l: Seq<PanId>) -> Seq<u8>
    decreases l.len(),
{
    if l.len() == 0 {
        Seq::empty()
    } else {
        pans_bytes(l.drop_last()) + u16_le(l.last().0)
    }
}

pub open spec fn link_entries_bytes(l: Seq<LinkStatusEntry>) -> Seq<u8>
    decreases l.len(),
{
    if l.len() == 0 {
        Seq::empty()
    } else {
        link_entries_bytes(l.drop_last()) + u16_le(l.last().neighbor_address.0) + seq![
            l.last().link_status.spec_to_u8(),
        ]
    }
}

pub open spec fn delta_entries_bytes(l: Seq<DeltaEntry>) -> Seq<u8>
    decreases l.len(),
{
    if l.len() == 0 {
        Seq::empty()
    } else {
        delta_entries_bytes(l.drop_last()) + u16_le(l.last().device_address.0) + seq![l.last().delta]
    }
}

fn rest_count(bytes: &[u8], off: usize, size: usize, cap: usize) -> (r: Result<usize, ParseError>)
    requires
        size > 0,
    ensures
        match r {
            Ok(n) => spec_rest_count(bytes@, off as int, size as nat, cap as nat) == Ok::<
                nat,
                ParseError,
            >(n as nat) && off + n * size == bytes@.len(),
            Err(e) => spec_rest_count(bytes@, off as int, size as nat, cap as nat) == Err::<
                nat,
                ParseError,
            >(e),
        },
{
    let len = bytes.len();
    if off > len {
        return Err(ParseError::BadOffset(off));
    }
    let r = len - off;
    if r / size > cap {
        Err(ParseError::BadInput)
    } else if r % size != 0 {
        Err(ParseError::Incomplete)
    } else {
        proof {
            vstd::arithmetic::div_mod::lemma_fundamental_div_mod(r as int, size as int);
            assert((r / size) * size == size * (r / size)) by (nonlinear_arith);
        }
        Ok(r / size)
    }
}

fn counted(bytes: &[u8], off: usize, count: usize, size: usize, cap: usize) -> (r: Result<(), ParseError>)
    requires
        size <= 3,
        cap <= 32,
        count <= 255,
    ensures
        r == spec_counted(bytes@, off as int, count as nat, size as nat, cap as nat),
        r is Ok ==> off + size * count <= bytes@.len(),
{
    let len = bytes.len();
    assert(size * count <= 765) by (nonlinear_arith)
        requires
            size <= 3,
            count <= 255,
    ;
    assert(size * (cap + 1) <= 99) by (nonlinear_arith)
        requires
            size <= 3,
            cap <= 32,
    ;
    if count <= cap {
        if off <= len && len - off >= size * count {
            Ok(())
        } else {
            Err(ParseError::Incomplete)
        }
    } else {
        if off <= len && len - off >= size * (cap + 1) {
            Err(ParseError::BadInput)
        } else {
            Err(ParseError::Incomplete)
        }
    }
}

fn read_addrs(bytes: &[u8], off: usize, n: usize) -> (r: Vec<NwkAddress, 32>)
    requires
        n <= 32,
        off + 2 * n <= bytes@.len(),
    ensures
        r@ == Seq::new(n as nat, |i: int| spec_addr_at(bytes@, off + 2 * i)),
{
    let blen = bytes.len();
    let mut v: Vec<NwkAddress, 32> = Vec::new();
    let mut i: usize = 0;
    while i < n
        invariant
            blen == bytes@.len(),
            i <= n <= 32,
            off + 2 * n <= bytes@.len(),
            v@ == Seq::new(i as nat, |k: int| spec_addr_at(bytes@, off + 2 * k)),
        decreases n - i,
    {
        let a = match u16_at(bytes, off + 2 * i) {
            Ok(a) => a,
            Err(_) => 0,
        };
        let _ = v.push(NwkAddress(a));
        i = i + 1;
        proof {
            assert(v@ =~= Seq::new(i as nat, |k: int| spec_addr_at(bytes@, off + 2 * k)));
        }
    }
    v
}

fn read_pans(bytes: &[u8], off: usize, n: usize) -> (r: Vec<PanId, 16>)
    requires
        n <= 16,
        off + 2 * n <= bytes@.len(),
    ensures
        r@ == Seq::new(n as nat, |i: int| spec_pan_at(bytes@, off + 2 * i)),
{
    let blen = bytes.len();
    let mut v: Vec<PanId, 16> = Vec::new();
    let mut i: usize = 0;
    while i < n
        invariant
            blen == bytes@.len(),
            i <= n <= 16,
            off + 2 * n <= bytes@.len(),
            v@ == Seq::new(i as nat, |k: int| spec_pan_at(bytes@, off + 2 * k)),
        decreases n - i,
    {
        let a = match u16_at(bytes, off + 2 * i) {
            Ok(a) => a,
            Err(_) => 0,
        };
        let _ = v.push(PanId(a));
        i = i + 1;
        proof {
            assert(v@ =~= Seq::new(i as nat, |k: int| spec_pan_at(bytes@, off + 2 * k)));
        }
    }
    v
}

fn read_link_entries(bytes: &[u8], off: usize, n: usize) -> (r: Vec<LinkStatusEntry, 16>)
    requires
        n <= 16,
        off + 3 * n <= bytes@.len(),
    ensures
        r@ == Seq::new(n as nat, |i: int| spec_link_entry_at(bytes@, off + 3 * i)),
{
    let blen = bytes.len();
    let mut v: Vec<LinkStatusEntry, 16> = Vec::new();
    let mut i: usize = 0;
    while i < n
        invariant
            blen == bytes@.len(),
            i <= n <= 16,
            off + 3 * n <= bytes@.len(),
            v@ == Seq::new(i as nat, |k: int| spec_link_entry_at(bytes@, off + 3 * k)),
        decreases n - i,
    {
        let a = match u16_at(bytes, off + 3 * i) {
            Ok(a) => a,
            Err(_) => 0,
        };
        let st = LinkStatus::from_u8(bytes[off + 3 * i + 2]);
        let _ = v.push(LinkStatusEntry { neighbor_address: NwkAddress(a), link_status: st });
        i = i + 1;
        proof {
            assert(v@ =~= Seq::new(i as nat, |k: int| spec_link_entry_at(bytes@, off + 3 * k)));
        }
    }
    v
}

fn read_delta_entries(bytes: &[u8], off: usize, n: usize) -> (r: Vec<DeltaEntry, 32>)
    requires
        n <= 32,
        off + 3 * n <= bytes@.len(),
    ensures
        r@ == Seq::new(n as nat, |i: int| spec_delta_entry_at(bytes@, off + 3 * i)),
{
    let blen = bytes.len();
    let mut v: Vec<DeltaEntry, 32> = Vec::new();
    let mut i: usize = 0;
    while i < n
        invariant
            blen == bytes@.len(),
            i <= n <= 32,
            off + 3 * n <= bytes@.len(),
            v@ == Seq::new(i as nat, |k: int| spec_delta_entry_at(bytes@, off + 3 * k)),
        decreases n - i,
    {
        let a = match u16_at(bytes, off + 3 * i) {
            Ok(a) => a,
            Err(_) => 0,
        };
        let d = bytes[off + 3 * i + 2];
        let _ = v.push(DeltaEntry { device_address: NwkAddress(a), delta: d });
        i = i + 1;
        proof {
            assert(v@ =~= Seq::new(i as nat, |k: int| spec_delta_entry_at(bytes@, off + 3 * k)));
        }
    }
    v
}

fn write_addrs(out: &mut std::vec::Vec<u8>, l: &[NwkAddress])
    ensures
        final(out)@ == old(out)@ + addrs_bytes(l@),
{
    let ghost start = out@;
    let mut i: usize = 0;
    proof {
        assert(out@ =~= start + addrs_bytes(l@.subrange(0, 0)));
    }
    while i < l.len()
        invariant
            i <= l@.len(),
            out@ == start + addrs_bytes(l@.subrange(0, i as int)),
        decreases l@.len() - i,
    {
        write_u16(out, l[i].0);
        proof {
            let t = l@.subrange(0, i + 1);
            assert(t.drop_last() =~= l@.subrange(0, i as int));
        }
        i = i + 1;
    }
    proof {
        assert(l@.subrange(0, l@.len() as int) =~= l@);
    }
}

fn write_pans(out: &mut std::vec::Vec<u8>, l: &[PanId])
    ensures
        final(out)@ == old(out)@ + pans_bytes(l@),
{
    let ghost start = out@;
    let mut i: usize = 0;
    proof {
        assert(out@ =~= start + pans_bytes(l@.subrange(0, 0)));
    }
    while i < l.len()
        invariant
            i <= l@.len(),
            out@ == start + pans_bytes(l@.subrange(0, i as int)),
        decreases l@.len() - i,
    {
        write_u16(out, l[i].0);
        proof {
            let t = l@.subrange(0, i + 1);
            assert(t.drop_last() =~= l@.subrange(0, i as int));
        }
        i = i + 1;
    }
    proof {
        assert(l@.subrange(0, l@.len() as int) =~= l@);
    }
}

fn write_link_entries(out: &mut std::vec::Vec<u8>, l: &[LinkStatusEntry])
    ensures
        final(out)@ == old(out)@ + link_entries_bytes(l@),
{
    let ghost start = out@;
    let mut i: usize = 0;
    proof {
        assert(out@ =~= start + link_entries_bytes(l@.subrange(0, 0)));
    }
    while i < l.len()
        invariant
            i <= l@.len(),
            out@ == start + link_entries_bytes(l@.subrange(0, i as int)),
        decreases l@.len() - i,
    {
        let ghost before = out@;
        write_u16(out, l[i].neighbor_address.0);
        write_u8(out, l[i].link_status.to_u8());
        proof {
            let t = l@.subrange(0, i + 1);
            assert(t.drop_last() =~= l@.subrange(0, i as int));
            assert(out@ =~= start + link_entries_bytes(t));
        }
        i = i + 1;
    }
    proof {
        assert(l@.subrange(0, l@.len() as int) =~= l@);
    }
}

fn write_delta_entries(out: &mut std::vec::Vec<u8>, l: &[DeltaEntry])
    ensures
        final(out)@ == old(out)@ + delta_entries_bytes(l@),
{
    let ghost start = out@;
    let mut i: usize = 0;
    proof {
        assert(out@ =~= start + delta_entries_bytes(l@.subrange(0, 0)));
    }
    while i < l.len()
        invariant
            i <= l@.len(),
            out@ == start + delta_entries_bytes(l@.subrange(0, i as int)),
        decreases l@.len() - i,
    {
        write_u16(out, l[i].device_address.0);
        write_u8(out, l[i].delta);
        proof {
            let t = l@.subrange(0, i + 1);
            assert(t.drop_last() =~= l@.subrange(0, i as int));
            assert(out@ =~= start + delta_entries_bytes(t));
        }
        i = i + 1;
    }
    proof {
        assert(l@.subrange(0, l@.len() as int) =~= l@);
    }
}

// ---------------------------------------------------------------- the command
/// A NWK command, each written after its identifier byte (0x01 to 0x0d).
pub enum Command {
    RouteRequest(RouteRequest),
    RouteReply(RouteReply),
    NetworkStatus(NetworkStatus),
    Leave(Leave),
    RouteRecord(Vec<NwkAddress, 32>),
    RejoinRequest(MacCapabilities),
    RejoinResponse(RejoinResponse),
    LinkStatus(LinkStatusCmd),
    NetworkReport(NetworkReport),
    NetworkUpdate(NetworkUpdate),
    EndDeviceTimeoutRequest(EndDeviceTimeoutRequest),
    EndDeviceTimeoutResponse(EndDeviceTimeoutResponse),
    LinkPowerDelta(LinkPowerDelta),
}

/// What a [`Command`] holds.
pub ghost enum CommandView {
    RouteRequest(RouteRequest),
    RouteReply(RouteReply),
    NetworkStatus(NetworkStatus),
    Leave(Leave),
    RouteRecord(Seq<NwkAddress>),
    RejoinRequest(MacCapabilities),
    RejoinResponse(RejoinResponse),
    LinkStatus(LinkStatusOptions, Seq<LinkStatusEntry>),
    NetworkReport(NetworkReportOptions, ExtendedAddress, Seq<PanId>),
    NetworkUpdate(NetworkUpdate),
    EndDeviceTimeoutRequest(EndDeviceTimeoutRequest),
    EndDeviceTimeoutResponse(EndDeviceTimeoutResponse),
    LinkPowerDelta(LinkPowerDeltaOptions, Seq<DeltaEntry>),
}

impl View for Command {
    type V = CommandView;

    open spec fn view(&self) -> CommandView {
        match self {
            Command::RouteRequest(c) => CommandView::RouteRequest(*c),
            Command::RouteReply(c) => CommandView::RouteReply(*c),
            Command::NetworkStatus(c) => CommandView::NetworkStatus(*c),
            Command::Leave(c) => CommandView::Leave(*c),
            Command::RouteRecord(l) => CommandView::RouteRecord(l@),
            Command::RejoinRequest(c) => CommandView::RejoinRequest(*c),
            Command::RejoinResponse(c) => CommandView::RejoinResponse(*c),
            Command::LinkStatus(c) => CommandView::LinkStatus(c.command_options, c.entries@),
            Command::NetworkReport(c) => match &c.report_information {
                NetworkReportInformation::PanIdentifierConflict(l) => CommandView::NetworkReport(
                    c.options,
                    c.extended_pan_id,
                    l@,
                ),
            },
            Command::NetworkUpdate(c) => CommandView::NetworkUpdate(*c),
            Command::EndDeviceTimeoutRequest(c) => CommandView::EndDeviceTimeoutRequest(*c),
            Command::EndDeviceTimeoutResponse(c) => CommandView::EndDeviceTimeoutResponse(*c),
            Command::LinkPowerDelta(c) => CommandView::LinkPowerDelta(
                c.command_options,
                c.power_list@,
            ),
        }
    }
}

pub open spec fn spec_status_code(c: EndDeviceTimeoutResponseStatus) -> u8 {
    match c {
        EndDeviceTimeoutResponseStatus::Success => 0,
        EndDeviceTimeoutResponseStatus::IncorrectValue => 1,
    }
}

pub open spec fn spec_delta_options_code(c: LinkPowerDeltaOptions) -> u8 {
    match c {
        LinkPowerDeltaOptions::Notification => 0,
        LinkPowerDeltaOptions::Request => 1,
        LinkPowerDeltaOptions::Response => 2,
    }
}

impl CommandView {
    /// The command's identifier.
    pub open spec fn spec_id(self) -> u8 {
        match self {
            CommandView::RouteRequest(_) => 0x01,
            CommandView::RouteReply(_) => 0x02,
            CommandView::NetworkStatus(_) => 0x03,
            CommandView::Leave(_) => 0x04,
            CommandView::RouteRecord(_) => 0x05,
            CommandView::RejoinRequest(_) => 0x06,
            CommandView::RejoinResponse(_) => 0x07,
            CommandView::LinkStatus(_, _) => 0x08,
            CommandView::NetworkReport(_, _, _) => 0x09,
            CommandView::NetworkUpdate(_) => 0x0a,
            CommandView::EndDeviceTimeoutRequest(_) => 0x0b,
            CommandView::EndDeviceTimeoutResponse(_) => 0x0c,
            CommandView::LinkPowerDelta(_, _) => 0x0d,
        }
    }

    /// The command's payload bytes.
    pub open spec fn spec_payload(self) -> Seq<u8> {
        match self {
            CommandView::RouteRequest(c) => c.spec_bytes(),
            CommandView::RouteReply(c) => c.spec_bytes(),
            CommandView::NetworkStatus(c) => seq![c.status_code.spec_code()] + u16_le(
                c.destination_address.0,
            ),
            CommandView::Leave(c) => seq![c.spec_to_u8()],
            CommandView::RouteRecord(l) => seq![l.len() as u8] + addrs_bytes(l),
            CommandView::RejoinRequest(c) => seq![c.spec_to_u8()],
            CommandView::RejoinResponse(c) => c.spec_bytes(),
            CommandView::LinkStatus(o, l) => seq![o.spec_to_u8()] + link_entries_bytes(l),
            CommandView::NetworkReport(o, e, l) => seq![o.spec_to_u8()] + u64_le(e.0) + pans_bytes(
                l,
            ),
            CommandView::NetworkUpdate(c) => c.spec_bytes(),
            CommandView::EndDeviceTimeoutRequest(c) => seq![c.requested_timeout.spec_code()]
                + u16_le(c.end_device_configuration),
            CommandView::EndDeviceTimeoutResponse(c) => seq![
                spec_status_code(c.status),
                c.parent_information.spec_to_u8(),
            ],
            CommandView::LinkPowerDelta(o, l) => seq![spec_delta_options_code(o), l.len() as u8]
                + delta_entries_bytes(l),
        }
    }

    pub open spec fn spec_bytes(self) -> Seq<u8> {
        seq![self.spec_id()] + self.spec_payload()
    }

    /// What a command must hold for its bytes to be read back as it is:
    /// the IEEE addresses that its options announce, counts that fit their
    /// bits and lists that fit their capacity.
    pub open spec fn spec_wf(self) -> bool {
        match self {
            CommandView::RouteRequest(c) => c.destination_ieee_address.is_some()
                == c.command_options.destination_ieee,
            CommandView::RouteReply(c) => c.originator_ieee_address.is_some()
                == c.command_options.originator_ieee && c.responder_ieee_address.is_some()
                == c.command_options.responder_ieee,
            CommandView::RouteRecord(l) => l.len() <= 32,
            CommandView::LinkStatus(o, l) => o.entry_count < 32 && l.len() <= 16,
            CommandView::NetworkReport(o, _, l) => o.count < 32 && l.len() <= 16,
            CommandView::NetworkUpdate(c) => c.options.count < 32,
            CommandView::LinkPowerDelta(_, l) => l.len() <= 32,
            _ => true,
        }
    }

    /// Whether the command's list runs to the end of the frame, so that
    /// nothing can follow the command.
    pub open spec fn spec_reads_to_end(self) -> bool {
        self is LinkStatus || self is NetworkReport
    }
}

/// The command payload with identifier `id` at `off`, and where it ends.
pub open spec fn spec_parse_payload(s: Seq<u8>, id: u8, off: int) -> Result<(CommandView, int), ParseError> {
    if id == 0x01 {
        match spec_parse_route_request(s, off) {
            Ok((c, e)) => Ok((CommandView::RouteRequest(c), e)),
            Err(e) => Err(e),
        }
    } else if id == 0x02 {
        match spec_parse_route_reply(s, off) {
            Ok((c, e)) => Ok((CommandView::RouteReply(c), e)),
            Err(e) => Err(e),
        }
    } else if id == 0x03 {
        match spec_u8_at(s, off) {
            Err(e) => Err(e),
            Ok(code) => match NetworkStatusCode::spec_from_code(code) {
                None => Err(ParseError::BadInput),
                Some(st) => match spec_u16_at(s, off + 1) {
                    Err(e) => Err(e),
                    Ok(a) => Ok(
                        (
                            CommandView::NetworkStatus(
                                NetworkStatus { status_code: st, destination_address: NwkAddress(a) },
                            ),
                            off + 3,
                        ),
                    ),
                },
            },
        }
    } else if id == 0x04 {
        match spec_u8_at(s, off) {
            Err(e) => Err(e),
            Ok(v) => Ok((CommandView::Leave(Leave::spec_from_u8(v)), off + 1)),
        }
    } else if id == 0x05 {
        match spec_u8_at(s, off) {
            Err(e) => Err(e),
            Ok(n) => match spec_counted(s, off + 1, n as nat, 2, 32) {
                Err(e) => Err(e),
                Ok(_) => Ok(
                    (
                        CommandView::RouteRecord(
                            Seq::new(n as nat, |i: int| spec_addr_at(s, off + 1 + 2 * i)),
                        ),
                        off + 1 + 2 * n,
                    ),
                ),
            },
        }
    } else if id == 0x06 {
        match spec_u8_at(s, off) {
            Err(e) => Err(e),
            Ok(v) => Ok((CommandView::RejoinRequest(MacCapabilities::spec_from_u8(v)), off + 1)),
        }
    } else if id == 0x07 {
        match spec_parse_rejoin_response(s, off) {
            Ok((c, e)) => Ok((CommandView::RejoinResponse(c), e)),
            Err(e) => Err(e),
        }
    } else if id == 0x08 {
        match spec_u8_at(s, off) {
            Err(e) => Err(e),
            Ok(o) => match spec_rest_count(s, off + 1, 3, 16) {
                Err(e) => Err(e),
                Ok(n) => Ok(
                    (
                        CommandView::LinkStatus(
                            LinkStatusOptions::spec_from_u8(o),
                            Seq::new(n, |i: int| spec_link_entry_at(s, off + 1 + 3 * i)),
                        ),
                        s.len() as int,
                    ),
                ),
            },
        }
    } else if id == 0x09 {
        match spec_u8_at(s, off) {
            Err(e) => Err(e),
            Ok(o) => match NetworkReportOptions::spec_from_u8(o) {
                Err(e) => Err(e),
                Ok(opts) => match spec_u64_at(s, off + 1) {
                    Err(e) => Err(e),
                    Ok(ext) => match spec_rest_count(s, off + 9, 2, 16) {
                        Err(e) => Err(e),
                        Ok(n) => Ok(
                            (
                                CommandView::NetworkReport(
                                    opts,
                                    ExtendedAddress(ext),
                                    Seq::new(n, |i: int| spec_pan_at(s, off + 9 + 2 * i)),
                                ),
                                s.len() as int,
                            ),
                        ),
                    },
                },
            },
        }
    } else if id == 0x0a {
        match spec_parse_network_update(s, off) {
            Ok((c, e)) => Ok((CommandView::NetworkUpdate(c), e)),
            Err(e) => Err(e),
        }
    } else if id == 0x0b {
        match spec_u8_at(s, off) {
            Err(e) => Err(e),
            Ok(t) => match DeviceTimeout::spec_from_code(t) {
                None => Err(ParseError::BadInput),
                Some(timeout) => match spec_u16_at(s, off + 1) {
                    Err(e) => Err(e),
                    Ok(cfg) => Ok(
                        (
                            CommandView::EndDeviceTimeoutRequest(
                                EndDeviceTimeoutRequest {
                                    requested_timeout: timeout,
                                    end_device_configuration: cfg,
                                },
                            ),
                            off + 3,
                        ),
                    ),
                },
            },
        }
    } else if id == 0x0c {
        match spec_u8_at(s, off) {
            Err(e) => Err(e),
            Ok(st) => if st > 1 {
                Err(ParseError::BadInput)
            } else {
                match spec_u8_at(s, off + 1) {
                    Err(e) => Err(e),
                    Ok(pi) => Ok(
                        (
                            CommandView::EndDeviceTimeoutResponse(
                                EndDeviceTimeoutResponse {
                                    status: if st == 0 {
                                        EndDeviceTimeoutResponseStatus::Success
                                    } else {
                                        EndDeviceTimeoutResponseStatus::IncorrectValue
                                    },
                                    parent_information: ParentInformation::spec_from_u8(pi),
                                },
                            ),
                            off + 2,
                        ),
                    ),
                }
            },
        }
    } else if id == 0x0d {
        match spec_u8_at(s, off) {
            Err(e) => Err(e),
            Ok(o) => if o > 2 {
                Err(ParseError::BadInput)
            } else {
                match spec_u8_at(s, off + 1) {
                    Err(e) => Err(e),
                    Ok(n) => match spec_counted(s, off + 2, n as nat, 3, 32) {
                        Err(e) => Err(e),
                        Ok(_) => Ok(
                            (
                                CommandView::LinkPowerDelta(
                                    if o == 0 {
                                        LinkPowerDeltaOptions::Notification
                                    } else if o == 1 {
                                        LinkPowerDeltaOptions::Request
                                    } else {
                                        LinkPowerDeltaOptions::Response
                                    },
                                    Seq::new(n as nat, |i: int| spec_delta_entry_at(s, off + 2 + 3 * i)),
                                ),
                                off + 2 + 3 * n,
                            ),
                        ),
                    },
                }
            },
        }
    } else {
        Err(ParseError::BadInput)
    }
}

/// The command that starts at `start`, and where it ends.
pub open spec fn spec_parse_command(s: Seq<u8>, start: int) -> Result<(CommandView, int), ParseError> {
    match spec_u8_at(s, start) {
        Err(e) => Err(e),
        Ok(id) => spec_parse_payload(s, id, start + 1),
    }
}

impl Command {
    /// Reads the command that starts at `start`; returns it with the offset
    /// where it ends.
    pub fn parse(bytes: &[u8], start: usize) -> (r: Result<(Command, usize), ParseError>)
        ensures
            match r {
                Ok((c, n)) => spec_parse_command(bytes@, start as int) == Ok::<
                    (CommandView, int),
                    ParseError,
                >((c@, n as int)),
                Err(e) => spec_parse_command(bytes@, start as int) == Err::<
                    (CommandView, int),
                    ParseError,
                >(e),
            },
    {
        let id = match u8_at(bytes, start) {
            Ok(v) => v,
            Err(e) => return Err(e),
        };
        let off: usize = start + 1;
        if id == 0x01 {
            match parse_route_request(bytes, off) {
                Ok((c, e)) => Ok((Command::RouteRequest(c), e)),
                Err(e) => Err(e),
            }
        } else if id == 0x02 {
            match parse_route_reply(bytes, off) {
                Ok((c, e)) => Ok((Command::RouteReply(c), e)),
                Err(e) => Err(e),
            }
        } else if id == 0x03 {
            let code = match u8_at(bytes, off) {
                Ok(v) => v,
                Err(e) => return Err(e),
            };
            let st = match NetworkStatusCode::from_code(code) {
                Some(v) => v,
                None => return Err(ParseError::BadInput),
            };
            let a = match u16_at(bytes, off + 1) {
                Ok(v) => v,
                Err(e) => return Err(e),
            };
            Ok(
                (
                    Command::NetworkStatus(
                        NetworkStatus { status_code: st, destination_address: NwkAddress(a) },
                    ),
                    off + 3,
                ),
            )
        } else if id == 0x04 {
            match u8_at(bytes, off) {
                Ok(v) => Ok((Command::Leave(Leave::from_u8(v)), off + 1)),
                Err(e) => Err(e),
            }
        } else if id == 0x05 {
            let n = match u8_at(bytes, off) {
                Ok(v) => v,
                Err(e) => return Err(e),
            };
            match counted(bytes, off + 1, n as usize, 2, 32) {
                Err(e) => Err(e),
                Ok(_) => {
                    let l = read_addrs(bytes, off + 1, n as usize);
                    Ok((Command::RouteRecord(l), off + 1 + 2 * (n as usize)))
                },
            }
        } else if id == 0x06 {
            match u8_at(bytes, off) {
                Ok(v) => Ok((Command::RejoinRequest(MacCapabilities::from_value(v)), off + 1)),
                Err(e) => Err(e),
            }
        } else if id == 0x07 {
            let a = match u16_at(bytes, off) {
                Ok(v) => v,
                Err(e) => return Err(e),
            };
            let st = match u8_at(bytes, off + 2) {
                Ok(v) => v,
                Err(e) => return Err(e),
            };
            if st == 0 {
                Ok((Command::RejoinResponse(RejoinResponse::Success(NwkAddress(a))), off + 3))
            } else if st == 1 {
                Ok((Command::RejoinResponse(RejoinResponse::PanAtCapacity), off + 3))
            } else if st == 2 {
                Ok((Command::RejoinResponse(RejoinResponse::AccessDenied), off + 3))
            } else {
                Err(ParseError::BadInput)
            }
        } else if id == 0x08 {
            let o = match u8_at(bytes, off) {
                Ok(v) => v,
                Err(e) => return Err(e),
            };
            match rest_count(bytes, off + 1, 3, 16) {
                Err(e) => Err(e),
                Ok(n) => {
                    let l = read_link_entries(bytes, off + 1, n);
                    Ok(
                        (
                            Command::LinkStatus(
                                LinkStatusCmd {
                                    command_options: LinkStatusOptions::from_u8(o),
                                    entries: l,
                                },
                            ),
                            bytes.len(),
                        ),
                    )
                },
            }
        } else if id == 0x09 {
            let o = match u8_at(bytes, off) {
                Ok(v) => v,
                Err(e) => return Err(e),
            };
            let opts = match NetworkReportOptions::from_u8(o) {
                Ok(v) => v,
                Err(e) => return Err(e),
            };
            let ext = match u64_at(bytes, off + 1) {
                Ok(v) => v,
                Err(e) => return Err(e),
            };
            match rest_count(bytes, off + 9, 2, 16) {
                Err(e) => Err(e),
                Ok(n) => {
                    let l = read_pans(bytes, off + 9, n);
                    Ok(
                        (
                            Command::NetworkReport(
                                NetworkReport {
                                    options: opts,
                                    extended_pan_id: ExtendedAddress(ext),
                                    report_information: NetworkReportInformation::PanIdentifierConflict(
                                        l,
                                    ),
                                },
                            ),
                            bytes.len(),
                        ),
                    )
                },
            }
        } else if id == 0x0a {
            let o = match u8_at(bytes, off) {
                Ok(v) => v,
                Err(e) => return Err(e),
            };
            let opts = match NetworkReportOptions::from_u8(o) {
                Ok(v) => v,
                Err(e) => return Err(e),
            };
            let ext = match u64_at(bytes, off + 1) {
                Ok(v) => v,
                Err(e) => return Err(e),
            };
            let uid = match u8_at(bytes, off + 9) {
                Ok(v) => v,
                Err(e) => return Err(e),
            };
            let pan = match u16_at(bytes, off + 10) {
                Ok(v) => v,
                Err(e) => return Err(e),
            };
            Ok(
                (
                    Command::NetworkUpdate(
                        NetworkUpdate {
                            options: opts,
                            ext_pan_id: ExtendedAddress(ext),
                            update_id: uid,
                            update_information: UpdateInformation::PanIdentifierUpdate(PanId(pan)),
                        },
                    ),
                    off + 12,
                ),
            )
        } else if id == 0x0b {
            let t = match u8_at(bytes, off) {
                Ok(v) => v,
                Err(e) => return Err(e),
            };
            let timeout = match DeviceTimeout::from_code(t) {
                Some(v) => v,
                None => return Err(ParseError::BadInput),
            };
            let cfg = match u16_at(bytes, off + 1) {
                Ok(v) => v,
                Err(e) => return Err(e),
            };
            Ok(
                (
                    Command::EndDeviceTimeoutRequest(
                        EndDeviceTimeoutRequest {
                            requested_timeout: timeout,
                            end_device_configuration: cfg,
                        },
                    ),
                    off + 3,
                ),
            )
        } else if id == 0x0c {
            let st = match u8_at(bytes, off) {
                Ok(v) => v,
                Err(e) => return Err(e),
            };
            if st > 1 {
                return Err(ParseError::BadInput);
            }
            let pi = match u8_at(bytes, off + 1) {
                Ok(v) => v,
                Err(e) => return Err(e),
            };
            Ok(
                (
                    Command::EndDeviceTimeoutResponse(
                        EndDeviceTimeoutResponse {
                            status: if st == 0 {
                                EndDeviceTimeoutResponseStatus::Success
                            } else {
                                EndDeviceTimeoutResponseStatus::IncorrectValue
                            },
                            parent_information: ParentInformation::from_u8(pi),
                        },
                    ),
                    off + 2,
                ),
            )
        } else if id == 0x0d {
            let o = match u8_at(bytes, off) {
                Ok(v) => v,
                Err(e) => return Err(e),
            };
            if o > 2 {
                return Err(ParseError::BadInput);
            }
            let n = match u8_at(bytes, off + 1) {
                Ok(v) => v,
                Err(e) => return Err(e),
            };
            match counted(bytes, off + 2, n as usize, 3, 32) {
                Err(e) => Err(e),
                Ok(_) => {
                    let l = read_delta_entries(bytes, off + 2, n as usize);
                    Ok(
                        (
                            Command::LinkPowerDelta(
                                LinkPowerDelta {
                                    command_options: if o == 0 {
                                        LinkPowerDeltaOptions::Notification
                                    } else if o == 1 {
                                        LinkPowerDeltaOptions::Request
                                    } else {
                                        LinkPowerDeltaOptions::Response
                                    },
                                    power_list: l,
                                },
                            ),
                            off + 2 + 3 * (n as usize),
                        ),
                    )
                },
            }
        } else {
            Err(ParseError::BadInput)
        }
    }

    /// Appends the identifier and the payload.
    pub fn serialize(&self, out: &mut std::vec::Vec<u8>)
        ensures
            final(out)@ == old(out)@ + self@.spec_bytes(),
    {
        let ghost start = out@;
        match self {
            Command::RouteRequest(c) => {
                write_u8(out, 0x01);
                write_route_request(out, c);
            },
            Command::RouteReply(c) => {
                write_u8(out, 0x02);
                write_route_reply(out, c);
            },
            Command::NetworkStatus(c) => {
                write_u8(out, 0x03);
                write_u8(out, c.status_code.code());
                write_u16(out, c.destination_address.0);
            },
            Command::Leave(c) => {
                write_u8(out, 0x04);
                write_u8(out, c.to_u8());
            },
            Command::RouteRecord(l) => {
                write_u8(out, 0x05);
                write_u8(out, l.len() as u8);
                write_addrs(out, l.as_slice());
            },
            Command::RejoinRequest(c) => {
                write_u8(out, 0x06);
                write_u8(out, c.get_value());
            },
            Command::RejoinResponse(c) => {
                write_u8(out, 0x07);
                match c {
                    RejoinResponse::Success(a) => {
                        write_u16(out, a.0);
                        write_u8(out, 0);
                    },
                    RejoinResponse::PanAtCapacity => {
                        write_u16(out, 0xffff);
                        write_u8(out, 1);
                    },
                    RejoinResponse::AccessDenied => {
                        write_u16(out, 0xffff);
                        write_u8(out, 2);
                    },
                }
            },
            Command::LinkStatus(c) => {
                write_u8(out, 0x08);
                write_u8(out, c.command_options.to_u8());
                write_link_entries(out, c.entries.as_slice());
            },
            Command::NetworkReport(c) => {
                write_u8(out, 0x09);
                write_u8(out, c.options.to_u8());
                write_u64(out, c.extended_pan_id.0);
                match &c.report_information {
                    NetworkReportInformation::PanIdentifierConflict(l) => {
                        write_pans(out, l.as_slice());
                    },
                }
            },
            Command::NetworkUpdate(c) => {
                write_u8(out, 0x0a);
                write_u8(out, c.options.to_u8());
                write_u64(out, c.ext_pan_id.0);
                write_u8(out, c.update_id);
                match c.update_information {
                    UpdateInformation::PanIdentifierUpdate(p) => write_u16(out, p.0),
                }
            },
            Command::EndDeviceTimeoutRequest(c) => {
                write_u8(out, 0x0b);
                write_u8(out, c.requested_timeout.code());
                write_u16(out, c.end_device_configuration);
            },
            Command::EndDeviceTimeoutResponse(c) => {
                write_u8(out, 0x0c);
                let st: u8 = match c.status {
                    EndDeviceTimeoutResponseStatus::Success => 0,
                    EndDeviceTimeoutResponseStatus::IncorrectValue => 1,
                };
                write_u8(out, st);
                write_u8(out, c.parent_information.to_u8());
            },
            Command::LinkPowerDelta(c) => {
                write_u8(out, 0x0d);
                let o: u8 = match c.command_options {
                    LinkPowerDeltaOptions::Notification => 0,
                    LinkPowerDeltaOptions::Request => 1,
                    LinkPowerDeltaOptions::Response => 2,
                };
                write_u8(out, o);
                write_u8(out, c.power_list.len() as u8);
                write_delta_entries(out, c.power_list.as_slice());
            },
        }
        assert(out@ =~= start + self@.spec_bytes());
    }
}

/// Each network command is written with its Zigbee command identifier.
pub proof fn lemma_command_identifiers(x: CommandView)
    ensures
        x is RouteRequest ==> x.spec_id() == 0x01u8,
        x is RouteReply ==> x.spec_id() == 0x02u8,
        x is NetworkStatus ==> x.spec_id() == 0x03u8,
        x is Leave ==> x.spec_id() == 0x04u8,
        x is RouteRecord ==> x.spec_id() == 0x05u8,
        x is RejoinRequest ==> x.spec_id() == 0x06u8,
        x is RejoinResponse ==> x.spec_id() == 0x07u8,
        x is LinkStatus ==> x.spec_id() == 0x08u8,
        x is NetworkReport ==> x.spec_id() == 0x09u8,
        x is NetworkUpdate ==> x.spec_id() == 0x0au8,
        x is EndDeviceTimeoutRequest ==> x.spec_id() == 0x0bu8,
        x is EndDeviceTimeoutResponse ==> x.spec_id() == 0x0cu8,
        x is LinkPowerDelta ==> x.spec_id() == 0x0du8,
{
}

/// Each many-to-one mode is written with its Zigbee code.
pub proof fn lemma_many_to_one_codes(x: ManyToOne)
    ensures
        x is NotManyToOne ==> x.spec_code() == 0u8,
        x is ManyToOneRouteRecordSupported ==> x.spec_code() == 1u8,
        x is ManyToOneRouteRecordNotSupported ==> x.spec_code() == 2u8,
{
}

/// Each link cost is written as its number, unknown as 0.
pub proof fn lemma_link_cost_values(x: LinkCost)
    ensures
        x is Unknown ==> x.spec_value() == 0u8,
        x is _1 ==> x.spec_value() == 1u8,
        x is _2 ==> x.spec_value() == 2u8,
        x is _3 ==> x.spec_value() == 3u8,
        x is _4 ==> x.spec_value() == 4u8,
        x is _5 ==> x.spec_value() == 5u8,
        x is _6 ==> x.spec_value() == 6u8,
        x is _7 ==> x.spec_value() == 7u8,
{
}

/// Each end device timeout is written with its Zigbee code: 0 for ten
/// seconds, n for 2^n minutes.
pub proof fn lemma_device_timeout_codes(x: DeviceTimeout)
    ensures
        x is Secs10 ==> x.spec_code() == 0u8,
        x is Mins2 ==> x.spec_code() == 1u8,
        x is Mins4 ==> x.spec_code() == 2u8,
        x is Mins8 ==> x.spec_code() == 3u8,
        x is Mins16 ==> x.spec_code() == 4u8,
        x is Mins32 ==> x.spec_code() == 5u8,
        x is Mins64 ==> x.spec_code() == 6u8,
        x is Mins128 ==> x.spec_code() == 7u8,
        x is Mins256 ==> x.spec_code() == 8u8,
        x is Mins512 ==> x.spec_code() == 9u8,
        x is Mins1024 ==> x.spec_code() == 10u8,
        x is Mins2048 ==> x.spec_code() == 11u8,
        x is Mins4096 ==> x.spec_code() == 12u8,
        x is Mins8192 ==> x.spec_code() == 13u8,
        x is Mins16384 ==> x.spec_code() == 14u8,
{
}

/// A rejoin response is three bytes: the address given, low byte first
/// (all ones unless the rejoin succeeded), then the status, 0 for success,
/// 1 for a network at capacity, 2 for access denied.
pub proof fn lemma_rejoin_response_bytes(r: RejoinResponse)
    ensures
        r.spec_bytes().len() == 3,
        r matches RejoinResponse::Success(a) ==> r.spec_bytes() == seq![(a.0 % 256) as u8, (a.0 / 256) as u8, 0u8],
        r is PanAtCapacity ==> r.spec_bytes() == seq![0xffu8, 0xffu8, 1u8],
        r is AccessDenied ==> r.spec_bytes() == seq![0xffu8, 0xffu8, 2u8],
{
    reveal_with_fuel(crate::bytes::le_bytes, 3);
    match r {
        RejoinResponse::Success(a) => {
            assert(r.spec_bytes() =~= seq![(a.0 % 256) as u8, (a.0 / 256) as u8, 0u8]);
        },
        RejoinResponse::PanAtCapacity => {
            assert(r.spec_bytes() =~= seq![0xffu8, 0xffu8, 1u8]);
        },
        RejoinResponse::AccessDenied => {
            assert(r.spec_bytes() =~= seq![0xffu8, 0xffu8, 2u8]);
        },
    }
}

/// The leave options byte: rejoin in bit 5, request in bit 6, remove
/// children in bit 7, bits 0 to 4 clear.
pub proof fn lemma_leave_bits(l: Leave)
    ensures
        l.spec_to_u8() % 32 == 0,
        (l.spec_to_u8() / 32) % 2 == (if l.rejoin { 1int } else { 0int }),
        (l.spec_to_u8() / 64) % 2 == (if l.request { 1int } else { 0int }),
        l.spec_to_u8() / 128 == (if l.remove_children { 1int } else { 0int }),
{
}

/// The link status byte of a neighbor: its incoming cost in bits 0 to 2,
/// bit 3 clear, its outgoing cost in bits 4 to 6, bit 7 clear.
pub proof fn lemma_link_status_bits(s: LinkStatus)
    ensures
        s.spec_to_u8() % 8 == s.incoming_cost.spec_value(),
        (s.spec_to_u8() / 8) % 2 == 0,
        (s.spec_to_u8() / 16) % 8 == s.outgoing_cost.spec_value(),
        s.spec_to_u8() < 128,
{
    lemma_link_cost_values(s.incoming_cost);
    lemma_link_cost_values(s.outgoing_cost);
}

/// The parent information byte: MAC data poll keepalive in bit 0, end
/// device timeout request keepalive in bit 1, power negotiation in bit 2,
/// nothing above.
pub proof fn lemma_parent_information_bits(p: ParentInformation)
    ensures
        p.spec_to_u8() % 2 == (if p.mac_data_poll_keepalive_supported { 1int } else { 0int }),
        (p.spec_to_u8() / 2) % 2 == (if p.end_device_timeout_request_keepalive_supported { 1int } else { 0int }),
        (p.spec_to_u8() / 4) % 2 == (if p.power_negotiation_supported { 1int } else { 0int }),
        p.spec_to_u8() < 8,
{
}

/// The time each end device timeout stands for, in milliseconds: ten
/// seconds, then 2, 4, ... 16384 minutes.
pub proof fn lemma_device_timeout_durations(t: DeviceTimeout)
    ensures
        t is Secs10 ==> t.spec_duration_ms() == 10000,
        t is Mins2 ==> t.spec_duration_ms() == 120000,
        t is Mins4 ==> t.spec_duration_ms() == 240000,
        t is Mins8 ==> t.spec_duration_ms() == 480000,
        t is Mins16 ==> t.spec_duration_ms() == 960000,
        t is Mins32 ==> t.spec_duration_ms() == 1920000,
        t is Mins64 ==> t.spec_duration_ms() == 3840000,
        t is Mins128 ==> t.spec_duration_ms() == 7680000,
        t is Mins256 ==> t.spec_duration_ms() == 15360000,
        t is Mins512 ==> t.spec_duration_ms() == 30720000,
        t is Mins1024 ==> t.spec_duration_ms() == 61440000,
        t is Mins2048 ==> t.spec_duration_ms() == 122880000,
        t is Mins4096 ==> t.spec_duration_ms() == 245760000,
        t is Mins8192 ==> t.spec_duration_ms() == 491520000,
        t is Mins16384 ==> t.spec_duration_ms() == 983040000,
{
    lemma_device_timeout_codes(t);
    reveal_with_fuel(pow2, 15);
}

/// The status of an end device timeout response is written as 0 for
/// success and 1 for an incorrect value.
pub proof fn lemma_timeout_response_status_codes(c: EndDeviceTimeoutResponseStatus)
    ensures
        c is Success ==> spec_status_code(c) == 0,
        c is IncorrectValue ==> spec_status_code(c) == 1,
{
}

/// The entries of a link status, three bytes each: the neighbor's address,
/// low byte first, then its link status byte.
pub proof fn lemma_link_entries_layout(l: Seq<LinkStatusEntry>)
    ensures
        link_entries_bytes(l).len() == 3 * l.len(),
        forall|k: int|
            0 <= k < l.len() ==> {
                &&& #[trigger] link_entries_bytes(l)[3 * k] == (l[k].neighbor_address.0 % 256) as u8
                &&& link_entries_bytes(l)[3 * k + 1] == (l[k].neighbor_address.0 / 256) as u8
                &&& link_entries_bytes(l)[3 * k + 2] == l[k].link_status.spec_to_u8()
            },
    decreases l.len(),
{
    if l.len() > 0 {
        let r = l.drop_last();
        lemma_link_entries_layout(r);
        crate::bytes::lemma_u16_le_bytes(l.last().neighbor_address.0);
        let b = link_entries_bytes(l);
        let rb = link_entries_bytes(r);
        assert(b =~= rb + seq![
            (l.last().neighbor_address.0 % 256) as u8,
            (l.last().neighbor_address.0 / 256) as u8,
            l.last().link_status.spec_to_u8(),
        ]);
        assert forall|k: int| 0 <= k < l.len() implies {
            &&& #[trigger] b[3 * k] == (l[k].neighbor_address.0 % 256) as u8
            &&& b[3 * k + 1] == (l[k].neighbor_address.0 / 256) as u8
            &&& b[3 * k + 2] == l[k].link_status.spec_to_u8()
        } by {
            if k < r.len() {
                assert(r[k] == l[k]);
                assert(rb[3 * k] == (r[k].neighbor_address.0 % 256) as u8);
            }
        }
    }
}

/// The payloads of the network commands of fixed size: a network status is
/// its code and the address concerned, low byte first; a leave and a rejoin
/// request are their options byte; an end device timeout request is the
/// timeout code and the configuration, low byte first; a response is the
/// status and the parent information; a link status is its options byte
/// and then its entries (see [`lemma_link_entries_layout`]).
pub proof fn lemma_command_payloads(c: CommandView)
    ensures
        c matches CommandView::NetworkStatus(n) ==> c.spec_payload() == seq![
            n.status_code.spec_code(),
            (n.destination_address.0 % 256) as u8,
            (n.destination_address.0 / 256) as u8,
        ],
        c matches CommandView::Leave(l) ==> c.spec_payload() == seq![l.spec_to_u8()],
        c matches CommandView::RejoinRequest(cap) ==> c.spec_payload() == seq![cap.spec_to_u8()],
        c matches CommandView::EndDeviceTimeoutRequest(r) ==> c.spec_payload() == seq![
            r.requested_timeout.spec_code(),
            (r.end_device_configuration % 256) as u8,
            (r.end_device_configuration / 256) as u8,
        ],
        c matches CommandView::EndDeviceTimeoutResponse(r) ==> c.spec_payload() == seq![
            spec_status_code(r.status),
            r.parent_information.spec_to_u8(),
        ],
        c matches CommandView::LinkStatus(o, l) ==> c.spec_payload() == seq![o.spec_to_u8()] + link_entries_bytes(l),
        c.spec_bytes()[0] == c.spec_id(),
{
    match c {
        CommandView::NetworkStatus(n) => {
            crate::bytes::lemma_u16_le_bytes(n.destination_address.0);
            assert(c.spec_payload() =~= seq![
                n.status_code.spec_code(),
                (n.destination_address.0 % 256) as u8,
                (n.destination_address.0 / 256) as u8,
            ]);
        },
        CommandView::EndDeviceTimeoutRequest(r) => {
            crate::bytes::lemma_u16_le_bytes(r.end_device_configuration);
            assert(c.spec_payload() =~= seq![
                r.requested_timeout.spec_code(),
                (r.end_device_configuration % 256) as u8,
                (r.end_device_configuration / 256) as u8,
            ]);
        },
        _ => {},
    }
}

} // verus!

