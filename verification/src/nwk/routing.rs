//! The routing table, route discovery and tree routing.
use vstd::prelude::*;

use crate::collections::{HashMap, MapKey};
use crate::common::{ExtendedAddress, NwkAddress, BROADCAST_ROUTERS};
use crate::nwk::commands::{
    Command, CommandView, LinkCost, ManyToOne, NetworkStatusCode, RouteRequest, RouteRequestOptions,
};
use crate::nwk::frame::header::{FrameType, HeaderContext, NwkHeader};
use crate::nwk::frame::{NwkFrame, NwkFrameView};
use crate::nwk::nlde::NldeTransferError;
use crate::nwk::nib::RouteStatus;
use crate::stack_profile::{AddrAllocMethod, StackProfileParams};
use vstd::arithmetic::power::pow;

verus! {

/// A route is kept per destination address, group routes apart from the
/// others.
#[derive(Clone, Copy, Debug, PartialEq, Eq, Structural)]
pub struct RouteEntryKey {
    pub addr: NwkAddress,
    pub is_group: bool,
}

impl MapKey for RouteEntryKey {
    fn same_key(&self, other: &Self) -> (r: bool) {
        self.addr.0 == other.addr.0 && self.is_group == other.is_group
    }
}

/// A routing table entry.
#[derive(Clone, Copy, Debug, PartialEq, Eq, Structural)]
pub struct RouteEntry {
    pub status: RouteStatus,
    pub no_route_cache: bool,
    pub many_to_one: bool,
    pub route_record_required: bool,
    pub is_group: bool,
    pub next_hop_addr: NwkAddress,
}

/// A route discovery is kept per route, request identifier and originator.
#[derive(Clone, Copy, Debug, PartialEq, Eq, Structural)]
pub struct DiscoveryKey {
    pub route: RouteEntryKey,
    pub route_request_id: u8,
    pub originator: NwkAddress,
}

impl MapKey for DiscoveryKey {
    fn same_key(&self, other: &Self) -> (r: bool) {
        self.route.same_key(&other.route) && self.route_request_id == other.route_request_id
            && self.originator.0 == other.originator.0
    }
}

/// A route discovery in progress: who sent the request, the cost so far
/// and the cost back from the destination.
#[derive(Clone, Copy, Debug, PartialEq, Eq, Structural)]
pub struct RouteDiscoveryEntry {
    pub sender_addr: NwkAddress,
    pub forward_cost: u8,
    pub residual_cost: u8,
    pub expiration_time: u64,
}

pub const ROUTE_TABLE_SIZE: usize = 32;

pub const ROUTE_DISCOVERY_TABLE_SIZE: usize = 32;

/// The routes and the route discoveries under way.
pub struct RouteTable {
    pub routes: HashMap<RouteEntryKey, RouteEntry, ROUTE_TABLE_SIZE>,
    pub discoveries: HashMap<DiscoveryKey, RouteDiscoveryEntry, ROUTE_DISCOVERY_TABLE_SIZE>,
}

impl RouteTable {
    pub fn new() -> (r: RouteTable)
        ensures
            r.routes.entries().len() == 0,
            r.discoveries.entries().len() == 0,
    {
        RouteTable { routes: HashMap::new(), discoveries: HashMap::new() }
    }

    /// No route can be added.
    pub fn is_full(&self) -> (r: bool)
        ensures
            r == (self.routes.entries().len() >= ROUTE_TABLE_SIZE),
    {
        self.routes.len() >= ROUTE_TABLE_SIZE
    }
}

/// The cost of the link a frame came over, from its link quality. The
/// link quality is not yet known here and is taken as 0, so the cost is
/// always the highest, 7.
pub fn compute_routing_cost() -> (r: LinkCost)
    ensures
        r == LinkCost::_7,
{
    let lqi: u8 = 0;
    if lqi <= 16 {
        LinkCost::_7
    } else if lqi <= 32 {
        LinkCost::_6
    } else if lqi <= 64 {
        LinkCost::_5
    } else if lqi <= 96 {
        LinkCost::_4
    } else if lqi <= 128 {
        LinkCost::_3
    } else if lqi <= 192 {
        LinkCost::_2
    } else {
        LinkCost::_1
    }
}

/// The size of the address block a router at depth `d` hands each child
/// router, in a tree of at most `cm` children, `rm` of them routers, and
/// depth `lm`.
pub open spec fn spec_c_skip(cm: int, lm: int, rm: int, d: int) -> int {
    if rm == 1 {
        1 + cm * (lm - d - 1)
    } else {
        (1 + cm - rm - cm * pow(rm, (lm - d - 1) as nat)) / (1 - rm)
    }
}

/// The address block size of the tree `params` sets, at depth `d` (see
/// [`spec_c_skip`]). Only trees with at most one router per parent are
/// computed here: with more, the unsigned arithmetic underflows.
pub fn c_skip(params: &StackProfileParams, d: u8) -> (r: u32)
    requires
        d < params.nwk_max_depth,
        params.nwk_max_routers <= 1,
    ensures
        r == spec_c_skip(
            params.nwk_max_children as int,
            params.nwk_max_depth as int,
            params.nwk_max_routers as int,
            d as int,
        ),
{
    let cm = params.nwk_max_children as u32;
    let lm = params.nwk_max_depth as u32;
    let rm = params.nwk_max_routers as u32;
    let d = d as u32;
    let e = lm - d - 1;
    if rm == 1 {
        assert(cm * e <= 255 * 255) by (nonlinear_arith)
            requires
                cm <= 255,
                e <= 255,
        ;
        1 + cm * e
    } else {
        proof {
            reveal(pow);
            if e > 0 {
                assert(pow(0, e as nat) == 0 * pow(0, (e - 1) as nat));
            }
        }
        let p: u32 = if e == 0 {
            1
        } else {
            0
        };
        (1 + cm - rm - cm * p) / (1 - rm)
    }
}

/// Whether `child` lies in the address block of `parent`, a router at
/// `depth` - 1.
pub open spec fn spec_is_descendant(params: StackProfileParams, depth: u8, parent: NwkAddress, child: NwkAddress) -> bool {
    let skip = spec_c_skip(
        params.nwk_max_children as int,
        params.nwk_max_depth as int,
        params.nwk_max_routers as int,
        depth - 1,
    );
    parent.0 + skip > child.0 && child.0 > parent.0
}

/// Whether `child` lies in the address block of `parent` (see
/// [`spec_is_descendant`]); `depth` must be at least 1.
pub fn distributed_nwk_is_descendant(
    params: &StackProfileParams,
    depth: u8,
    parent: NwkAddress,
    child: NwkAddress,
) -> (r: bool)
    requires
        1 <= depth,
        depth - 1 < params.nwk_max_depth,
        params.nwk_max_routers <= 1,
    ensures
        r == spec_is_descendant(*params, depth, parent, child),
{
    let skip = c_skip(params, depth - 1);
    let p = parent.0 as u64;
    let c = child.0 as u64;
    p + skip as u64 > c && c > p
}

/// The next hop towards `addr` along the tree, for a router at `self_addr`
/// and `self_depth` whose parent is `parent_addr`: `addr` itself for a
/// child end device, the child router whose block holds it for a
/// descendant, the parent otherwise.
pub open spec fn spec_tree_next_hop(
    params: StackProfileParams,
    self_depth: u8,
    self_addr: NwkAddress,
    parent_addr: NwkAddress,
    addr: NwkAddress,
) -> NwkAddress {
    let skip = spec_c_skip(
        params.nwk_max_children as int,
        params.nwk_max_depth as int,
        params.nwk_max_routers as int,
        self_depth as int,
    );
    if spec_is_descendant(params, self_depth, self_addr, addr) {
        if addr.0 > self_addr.0 + params.nwk_max_routers * skip {
            addr
        } else {
            NwkAddress((self_addr.0 + 1 + ((addr.0 - (self_addr.0 + 1)) / skip) * skip) as u16)
        }
    } else {
        parent_addr
    }
}

/// The next hop towards `addr` along the tree (see [`spec_tree_next_hop`]).
pub fn tree_routing_next_hop(
    params: &StackProfileParams,
    self_depth: u8,
    self_addr: NwkAddress,
    parent_addr: NwkAddress,
    addr: NwkAddress,
) -> (r: NwkAddress)
    requires
        1 <= self_depth < params.nwk_max_depth,
        params.nwk_max_routers <= 1,
    ensures
        r == spec_tree_next_hop(*params, self_depth, self_addr, parent_addr, addr),
{
    if distributed_nwk_is_descendant(params, self_depth, self_addr, addr) {
        let skip = c_skip(params, self_depth) as u64;
        let rm = params.nwk_max_routers as u64;
        let s = self_addr.0 as u64;
        let a = addr.0 as u64;
        assert(skip >= 1) by (nonlinear_arith)
            requires
                skip == spec_c_skip(
                    params.nwk_max_children as int,
                    params.nwk_max_depth as int,
                    params.nwk_max_routers as int,
                    self_depth as int,
                ),
                params.nwk_max_routers <= 1,
                self_depth < params.nwk_max_depth,
        {
            reveal(pow);
        }
        assert(rm * skip <= skip) by (nonlinear_arith)
            requires
                rm <= 1,
        ;
        if a > s + rm * skip {
            addr
        } else {
            let q = (a - (s + 1)) / skip;
            assert(q * skip <= a - (s + 1)) by (nonlinear_arith)
                requires
                    q as int == (a as int - (s as int + 1)) / (skip as int),
                    skip >= 1,
                    a >= s + 1,
            ;
            NwkAddress((s + 1 + q * skip) as u16)
        }
    } else {
        parent_addr
    }
}

/// The routing address of `addr` in the block of the router `parent` at
/// `depth`: the router itself, the parent of an end device, or what the
/// block of its child router gives; `None` outside the block. Trees with
/// at most one router per parent only.
pub open spec fn spec_routing_address(params: StackProfileParams, depth: int, parent: int, addr: int) -> Option<NwkAddress>
    decreases params.nwk_max_depth - depth,
{
    let cm = params.nwk_max_children as int;
    let rm = params.nwk_max_routers as int;
    let skip = spec_c_skip(cm, params.nwk_max_depth as int, rm, depth);
    if addr == parent {
        Some(NwkAddress(parent as u16))
    } else if addr > parent + skip * rm + (cm - rm) {
        None
    } else if addr > parent + skip * rm {
        Some(NwkAddress(parent as u16))
    } else if rm == 1 && depth + 1 < params.nwk_max_depth {
        spec_routing_address(params, depth + 1, parent + 1, addr)
    } else if rm == 1 && addr == parent + 1 {
        Some(NwkAddress((parent + 1) as u16))
    } else {
        None
    }
}

/// The routing address of `addr` below the router `parent_addr` at `depth`
/// (see [`spec_routing_address`]).
pub fn get_distributed_network_routing_address(
    params: &StackProfileParams,
    depth: u8,
    parent_addr: u32,
    addr: u32,
) -> (r: Option<NwkAddress>)
    requires
        depth < params.nwk_max_depth,
        params.nwk_max_routers <= 1,
        params.nwk_max_routers <= params.nwk_max_children,
        parent_addr <= addr <= 0xffff,
    ensures
        r == spec_routing_address(*params, depth as int, parent_addr as int, addr as int),
    decreases params.nwk_max_depth - depth,
{
    let cm = params.nwk_max_children as u32;
    let rm = params.nwk_max_routers as u32;
    if addr == parent_addr {
        return Some(NwkAddress(parent_addr as u16));
    }
    let skip = c_skip(params, depth);
    assert(skip <= 1 + 255 * 255) by (nonlinear_arith)
        requires
            skip == spec_c_skip(cm as int, params.nwk_max_depth as int, rm as int, depth as int),
            rm <= 1,
            cm <= 255,
            depth < params.nwk_max_depth,
    {
        reveal(pow);
    }
    let block = skip * rm;
    assert(block <= skip) by (nonlinear_arith)
        requires
            block == skip * rm,
            rm <= 1,
    ;
    let max_addr = parent_addr + block + (cm - rm);
    if addr > max_addr {
        return None;
    }
    if addr > parent_addr + block {
        return Some(NwkAddress(parent_addr as u16));
    }
    if rm == 1 {
        if depth + 1 < params.nwk_max_depth {
            return get_distributed_network_routing_address(params, depth + 1, parent_addr + 1, addr);
        } else {
            assert(skip == 1) by (nonlinear_arith)
                requires
                    skip == spec_c_skip(cm as int, params.nwk_max_depth as int, rm as int, depth as int),
                    rm == 1,
                    depth + 1 == params.nwk_max_depth,
            ;
            return Some(NwkAddress((parent_addr + 1) as u16));
        }
    }
    None
}

/// The address a frame for `addr` is routed to: under distributed
/// addressing its routing address from the root (see
/// [`spec_routing_address`]), which must exist; otherwise `addr` itself.
pub fn get_routing_address_for_address(params: &StackProfileParams, addr: NwkAddress) -> (r: NwkAddress)
    requires
        params.nwk_addr_alloc == AddrAllocMethod::Distributed ==> {
            &&& 0 < params.nwk_max_depth
            &&& params.nwk_max_routers <= 1
            &&& params.nwk_max_routers <= params.nwk_max_children
            &&& spec_routing_address(*params, 0, 0, addr.0 as int) is Some
        },
    ensures
        params.nwk_addr_alloc == AddrAllocMethod::Distributed ==> Some(r) == spec_routing_address(
            *params,
            0,
            0,
            addr.0 as int,
        ),
        params.nwk_addr_alloc != AddrAllocMethod::Distributed ==> r == addr,
{
    match params.nwk_addr_alloc {
        AddrAllocMethod::Distributed => match get_distributed_network_routing_address(params, 0, 0, addr.0 as u32) {
            Some(a) => a,
            None => addr,
        },
        _ => addr,
    }
}

/// The destination of a route discovery: a group, or a device (or, with a
/// broadcast address, every device that routes to this one).
#[derive(Clone, Copy, Debug, PartialEq, Eq, Structural)]
pub enum RouteDiscoveryRequestAddress {
    Multicast(NwkAddress),
    UnicastOrBroadcast(NwkAddress),
}

/// A route request this device starts.
#[derive(Clone, Copy, Debug, PartialEq, Eq, Structural)]
pub struct RouteRequestCmd {
    pub dst_addr: RouteDiscoveryRequestAddress,
    pub ieee_destination: Option<ExtendedAddress>,
    pub route_request_id: u8,
    pub path_cost: u8,
}

/// Why a route could not be discovered.
#[derive(Clone, Copy, Debug, PartialEq, Eq, Structural)]
pub enum RouteError {
    InvalidRequest,
    RouteError(NetworkStatusCode),
    TransferError(NldeTransferError),
}

/// The route request command a request makes: many-to-one (with route
/// records) for a broadcast destination, multicast for a group, with the
/// destination's extended address flagged where it is given.
pub open spec fn spec_route_request(config: RouteRequestCmd) -> RouteRequest {
    RouteRequest {
        command_options: RouteRequestOptions {
            many_to_one: match config.dst_addr {
                RouteDiscoveryRequestAddress::Multicast(_) => ManyToOne::NotManyToOne,
                RouteDiscoveryRequestAddress::UnicastOrBroadcast(a) => if a.spec_is_broadcast() {
                    ManyToOne::ManyToOneRouteRecordSupported
                } else {
                    ManyToOne::NotManyToOne
                },
            },
            destination_ieee: config.ieee_destination is Some,
            multicast: config.dst_addr is Multicast,
        },
        route_request_id: config.route_request_id,
        dst_addr: match config.dst_addr {
            RouteDiscoveryRequestAddress::Multicast(a) => a,
            RouteDiscoveryRequestAddress::UnicastOrBroadcast(a) => a,
        },
        path_cost: config.path_cost,
        destination_ieee_address: config.ieee_destination,
    }
}

/// The route request command a request makes (see [`spec_route_request`]).
pub fn route_request_command(config: &RouteRequestCmd) -> (r: RouteRequest)
    ensures
        r == spec_route_request(*config),
{
    let (many_to_one, multicast, dst_addr) = match config.dst_addr {
        RouteDiscoveryRequestAddress::Multicast(a) => (ManyToOne::NotManyToOne, true, a),
        RouteDiscoveryRequestAddress::UnicastOrBroadcast(a) => (
            if a.is_broadcast() {
                ManyToOne::ManyToOneRouteRecordSupported
            } else {
                ManyToOne::NotManyToOne
            },
            false,
            a,
        ),
    };
    RouteRequest {
        command_options: RouteRequestOptions {
            many_to_one,
            destination_ieee: config.ieee_destination.is_some(),
            multicast,
        },
        route_request_id: config.route_request_id,
        dst_addr,
        path_cost: config.path_cost,
        destination_ieee_address: config.ieee_destination,
    }
}

/// The frame that carries a route request: a secured command frame of
/// this device to the routers' broadcast address as this stack writes it
/// (see [`NwkHeader::cmd`]).
pub fn route_request_frame(ctx: &mut HeaderContext, config: &RouteRequestCmd) -> (r: NwkFrame)
    requires
        old(ctx).max_depth * 2 <= 255,
    ensures
        r@.spec_header().destination == NwkAddress(BROADCAST_ROUTERS),
        r@.spec_header().source == old(ctx).addr,
        r@.spec_header().control.frame_type == FrameType::NwkCommand,
        r@.spec_header().control.security,
        r@.spec_header().sequence_number == old(ctx).seq_number,
        r@.spec_header().radius == old(ctx).max_depth * 2,
        r@ matches NwkFrameView::NwkCommand(_, c) && c == CommandView::RouteRequest(spec_route_request(*config)),
{
    let hdr = NwkHeader::cmd(ctx, true, NwkAddress(BROADCAST_ROUTERS), None, None, None, None);
    NwkFrame::new_cmd_frame(hdr, Command::RouteRequest(route_request_command(config)))
}

/// A command frame received from the neighbor `mac_src_addr`: its header
/// and its command.
pub struct ReceivedCommandFrame<'a, T> {
    pub mac_src_addr: NwkAddress,
    pub header: NwkHeader,
    pub cmd: &'a mut T,
}

impl<'a, T> ReceivedCommandFrame<'a, T> {
    /// The device that first sent the command.
    pub fn originator_addr(&self) -> (r: NwkAddress)
        ensures
            r == self.header.source,
    {
        self.header.source
    }

    /// The extended address of the device that first sent the command,
    /// where the frame carries it.
    pub fn originator_ieee_addr(&self) -> (r: Option<ExtendedAddress>)
        ensures
            r == self.header.source_ieee,
    {
        self.header.source_ieee
    }
}

} // verus!
