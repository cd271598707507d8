//! Where a routing device sends the data frames it relays or originates:
//! straight to a child, along a route of the routing table, along the
//! tree, or as a broadcast or multicast. The sending itself is left to the
//! caller.
use vstd::prelude::*;

use crate::collections::lemma_filter_step;
use crate::common::{DeviceType, NwkAddress};
use crate::nwk::constants::NWK_MAX_SOURCE_ROUTE;
use crate::nwk::frame::header::{DiscoverRoute, MulticastMode, NwkHeader};
use crate::nwk::nib::{
    has_short, lemma_finds_spec_find, none_matches, BroadcastTransactionTable, NeighborRelationship,
    NwkNeighbor, RouteStatus, TransactionRecord,
};
use crate::nwk::nlde::NldeTransferError;
use crate::nwk::router::{
    unexpired_at, same_but_btt, same_but_routes, spec_matches_end_device, spec_record, spec_seen, GroupTable,
    RouterState,
};
use crate::nwk::routing::{
    get_routing_address_for_address, spec_routing_address, spec_tree_next_hop, tree_routing_next_hop,
    RouteEntry, RouteEntryKey, ROUTE_TABLE_SIZE,
};
use crate::common::BROADCAST_ROUTERS;
use crate::stack_profile::{AddrAllocMethod, StackProfileParams};

verus! {

/// Where the routing of a unicast frame ended: sent to a next hop, taken
/// care of without a send, or not routed.
#[derive(Clone, Copy, Debug, PartialEq, Eq, Structural)]
pub enum Forwarding {
    SendTo(NwkAddress),
    Handled,
    NotHandled,
}

/// Whether `groups` holds `a`.
pub fn group_table_contains(groups: &GroupTable, a: NwkAddress) -> (r: bool)
    ensures
        r == groups@.contains(a),
{
    let n = groups.len();
    let mut i: usize = 0;
    while i < n
        invariant
            n == groups@.len(),
            i <= n,
            forall|j: int| 0 <= j < i ==> groups@[j] != a,
        decreases n - i,
    {
        if *groups.get(i) == a {
            proof {
                assert(groups@[i as int] == a);
            }
            return true;
        }
        i = i + 1;
    }
    false
}

/// An end device child with the short address `a`.
pub open spec fn is_end_device_child(a: NwkAddress) -> spec_fn(NwkNeighbor) -> bool {
    |nb: NwkNeighbor| nb.nwk_addr == a && nb.device_type == DeviceType::EndDevice && nb.relationship
        == NeighborRelationship::Child
}

/// Whether the routing address of `a` can be computed: under distributed
/// addressing, in a tree with at most one router per parent, where `a`
/// lies in the tree.
pub open spec fn routing_addr_ok(params: StackProfileParams, a: NwkAddress) -> bool {
    params.nwk_addr_alloc == AddrAllocMethod::Distributed ==> {
        &&& 0 < params.nwk_max_depth
        &&& params.nwk_max_routers <= 1
        &&& params.nwk_max_routers <= params.nwk_max_children
        &&& spec_routing_address(params, 0, 0, a.0 as int) is Some
    }
}

/// The routing address of `a` (see [`get_routing_address_for_address`]).
pub open spec fn spec_routing_addr(params: StackProfileParams, a: NwkAddress) -> NwkAddress {
    if params.nwk_addr_alloc == AddrAllocMethod::Distributed {
        spec_routing_address(params, 0, 0, a.0 as int)->Some_0
    } else {
        a
    }
}

/// A frame for an end device child goes straight to it; otherwise one
/// whose routing address is a child's goes to that child.
pub open spec fn spec_direct_relay(s: RouterState, dest: NwkAddress) -> Option<NwkAddress> {
    if !none_matches(s.neighbors.children@, is_end_device_child(dest)) {
        Some(dest)
    } else if !none_matches(s.neighbors.children@, has_short(spec_routing_addr(s.params, dest))) {
        Some(spec_routing_addr(s.params, dest))
    } else {
        None
    }
}

/// Whether tree routing can be computed: with tree routing on, the parent
/// must have told its depth, this device's depth must lie within the
/// profile's bound, and a parent may have one router child at most.
pub open spec fn tree_ok(s: RouterState) -> bool {
    s.params.nwk_use_tree_routing ==> {
        &&& s.neighbors.parent.join_data is Some
        &&& 1 <= s.neighbors.parent.join_data->Some_0.depth + 1 < s.params.nwk_max_depth
        &&& s.params.nwk_max_routers <= 1
    }
}

/// The next hop along the tree, where tree routing is on.
pub open spec fn spec_tree_hop(s: RouterState, dest: NwkAddress) -> Option<NwkAddress> {
    if s.params.nwk_use_tree_routing {
        Some(
            spec_tree_next_hop(
                s.params,
                (s.neighbors.parent.join_data->Some_0.depth + 1) as u8,
                s.addr,
                s.neighbors.parent.nwk_addr,
                dest,
            ),
        )
    } else {
        None
    }
}

/// The key of the route to the device `dest`.
pub open spec fn unicast_key(dest: NwkAddress) -> RouteEntryKey {
    RouteEntryKey { addr: dest, is_group: false }
}

/// The key of the route to the group `dest`.
pub open spec fn group_key(dest: NwkAddress) -> RouteEntryKey {
    RouteEntryKey { addr: dest, is_group: true }
}

/// An entry that may carry frames: active, or under validation.
pub open spec fn usable(e: RouteEntry) -> bool {
    e.status == RouteStatus::Active || e.status == RouteStatus::ValidationUnderway
}

/// What the routing table does with a frame for `dest`: no entry, no
/// routing; a usable one sends to its next hop; one under discovery keeps
/// the frame; any other leaves it to the tree.
pub open spec fn spec_table_route(s: RouterState, dest: NwkAddress) -> Forwarding {
    match s.route_table.routes.spec_get(unicast_key(dest)) {
        None => Forwarding::NotHandled,
        Some(e) => if usable(e) {
            Forwarding::SendTo(e.next_hop_addr)
        } else if e.status == RouteStatus::DiscoveryUnderway {
            Forwarding::Handled
        } else {
            match spec_tree_hop(s, dest) {
                Some(a) => Forwarding::SendTo(a),
                None => Forwarding::NotHandled,
            }
        },
    }
}

/// The routes after a frame was sent along the entry of `key`: a usable
/// entry becomes active.
pub open spec fn spec_routes_after(s: RouterState, key: RouteEntryKey) -> Seq<(RouteEntryKey, RouteEntry)> {
    match s.route_table.routes.spec_get(key) {
        Some(e) => if usable(e) {
            s.route_table.routes.spec_put(key, RouteEntry { status: RouteStatus::Active, ..e })
        } else {
            s.route_table.routes.entries()
        },
        None => s.route_table.routes.entries(),
    }
}

/// How a relayed unicast frame is routed: straight to a child, else along
/// the routing table where it has room, else (with route discovery not
/// asked for, or with a full table) along the tree.
pub open spec fn spec_relay_unicast(s: RouterState, hdr: NwkHeader) -> Forwarding {
    let dest = hdr.destination;
    match spec_direct_relay(s, dest) {
        Some(a) => Forwarding::SendTo(a),
        None => if s.route_table.routes.entries().len() < ROUTE_TABLE_SIZE {
            match spec_table_route(s, dest) {
                Forwarding::NotHandled => if hdr.control.route_discovery == DiscoverRoute::Enable {
                    Forwarding::NotHandled
                } else {
                    match spec_tree_hop(s, dest) {
                        Some(a) => Forwarding::SendTo(a),
                        None => Forwarding::NotHandled,
                    }
                },
                other => other,
            }
        } else {
            match spec_tree_hop(s, dest) {
                Some(a) => Forwarding::SendTo(a),
                None => Forwarding::NotHandled,
            }
        },
    }
}

/// A route record to the routing address of `dest` short enough for
/// source routing.
pub open spec fn has_source_route(s: RouterState, dest: NwkAddress) -> bool {
    exists|i: int|
        0 <= i < s.route_record_table@.len() && s.route_record_table@[i].network_address == spec_routing_addr(
            s.params,
            dest,
        ) && s.route_record_table@[i].relay_count < NWK_MAX_SOURCE_ROUTE
}

/// How a frame this device originates is routed: straight to a child,
/// along the tree where the routing table is full, else along the table;
/// a frame left over is kept where a source route exists, and fails with
/// a route error otherwise.
pub open spec fn spec_route_unicast(s: RouterState, dest: NwkAddress) -> Result<Option<NwkAddress>, NldeTransferError> {
    let later = if has_source_route(s, dest) {
        Ok(None)
    } else {
        Err(NldeTransferError::RouteError)
    };
    match spec_direct_relay(s, dest) {
        Some(a) => Ok(Some(a)),
        None => if s.route_table.routes.entries().len() >= ROUTE_TABLE_SIZE {
            match spec_tree_hop(s, dest) {
                Some(a) => Ok(Some(a)),
                None => later,
            }
        } else {
            match spec_table_route(s, dest) {
                Forwarding::SendTo(a) => Ok(Some(a)),
                Forwarding::Handled => Ok(None),
                Forwarding::NotHandled => later,
            }
        },
    }
}

/// Whether routing `dest` reaches the tree.
pub open spec fn reaches_tree(s: RouterState, dest: NwkAddress, full: bool) -> bool {
    spec_direct_relay(s, dest) is None && (full || match s.route_table.routes.spec_get(unicast_key(dest)) {
        Some(e) => !usable(e) && e.status != RouteStatus::DiscoveryUnderway,
        None => true,
    })
}

impl RouterState {
    /// The child a unicast frame goes straight to (see
    /// [`spec_direct_relay`]).
    pub fn try_unicast_direct_relay(&self, dest: NwkAddress) -> (r: Option<NwkAddress>)
        requires
            none_matches(self.neighbors.children@, is_end_device_child(dest)) ==> routing_addr_ok(self.params, dest),
        ensures
            r == spec_direct_relay(*self, dest),
    {
        let n = self.neighbors.children.len();
        let mut i: usize = 0;
        while i < n
            invariant
                n == self.neighbors.children@.len(),
                i <= n,
                forall|j: int| 0 <= j < i ==> !is_end_device_child(dest)(#[trigger] self.neighbors.children@[j]),
            decreases n - i,
        {
            let nb = self.neighbors.children.get(i);
            if nb.nwk_addr == dest && nb.device_type == DeviceType::EndDevice && nb.relationship
                == NeighborRelationship::Child {
                proof {
                    assert(is_end_device_child(dest)(self.neighbors.children@[i as int]));
                }
                return Some(dest);
            }
            i = i + 1;
        }
        let ra = get_routing_address_for_address(&self.params, dest);
        let found = self.neighbors.find_by_short_addr(ra);
        proof {
            lemma_finds_spec_find(self.neighbors.children@, has_short(ra), found);
            if let Some(k) = found {
                assert(has_short(ra)(self.neighbors.children@[k as int]));
            }
        }
        match found {
            Some(_) => Some(ra),
            None => None,
        }
    }

    /// The next hop along the tree, where tree routing is on.
    pub fn try_unicast_tree_routing(&self, dest: NwkAddress) -> (r: Option<NwkAddress>)
        requires
            tree_ok(*self),
        ensures
            r == spec_tree_hop(*self, dest),
    {
        if self.params.nwk_use_tree_routing {
            let depth = match self.neighbors.parent.join_data {
                Some(jd) => jd.depth + 1,
                None => 1,
            };
            Some(tree_routing_next_hop(&self.params, depth, self.addr, self.neighbors.parent.nwk_addr, dest))
        } else {
            None
        }
    }

    /// Routes a frame for `dest` along the routing table (see
    /// [`spec_table_route`]); a usable entry that carries it becomes active.
    pub fn try_unicast_route_table(&mut self, dest: NwkAddress) -> (r: Forwarding)
        requires
            (match old(self).route_table.routes.spec_get(unicast_key(dest)) {
                Some(e) => !usable(e) && e.status != RouteStatus::DiscoveryUnderway,
                None => false,
            }) ==> tree_ok(*old(self)),
        ensures
            r == spec_table_route(*old(self), dest),
            same_but_routes(final(self), old(self)),
            final(self).neighbors == old(self).neighbors,
            final(self).route_table.routes.entries() == spec_routes_after(*old(self), unicast_key(dest)),
            final(self).route_table.discoveries == old(self).route_table.discoveries,
    {
        let key = RouteEntryKey { addr: dest, is_group: false };
        let entry = match self.route_table.routes.get(&key) {
            Some(e) => *e,
            None => return Forwarding::NotHandled,
        };
        match entry.status {
            RouteStatus::Active | RouteStatus::ValidationUnderway => {
                let next_hop = entry.next_hop_addr;
                let _ = self.route_table.routes.insert(key, RouteEntry { status: RouteStatus::Active, ..entry });
                Forwarding::SendTo(next_hop)
            },
            RouteStatus::DiscoveryUnderway => Forwarding::Handled,
            _ => match self.try_unicast_tree_routing(dest) {
                Some(a) => Forwarding::SendTo(a),
                None => Forwarding::NotHandled,
            },
        }
    }

    /// Whether relaying a unicast frame to `dest` may go as far as the tree
    /// (see [`reaches_tree`]).
    pub fn unicast_reaches_tree(&self, dest: NwkAddress) -> (r: bool)
        requires
            none_matches(self.neighbors.children@, is_end_device_child(dest)) ==> routing_addr_ok(self.params, dest),
        ensures
            r == reaches_tree(*self, dest, self.route_table.routes.entries().len() >= ROUTE_TABLE_SIZE),
    {
        if self.try_unicast_direct_relay(dest).is_some() {
            return false;
        }
        if self.route_table.is_full() {
            return true;
        }
        let key = RouteEntryKey { addr: dest, is_group: false };
        match self.route_table.routes.get(&key) {
            Some(e) => match e.status {
                RouteStatus::Active | RouteStatus::ValidationUnderway | RouteStatus::DiscoveryUnderway => false,
                _ => true,
            },
            None => true,
        }
    }

    /// Routes a unicast data frame that this router relays (see
    /// [`spec_relay_unicast`]).
    pub fn relay_unicast_frame(&mut self, hdr: &NwkHeader) -> (r: Forwarding)
        requires
            none_matches(old(self).neighbors.children@, is_end_device_child(hdr.destination)) ==> routing_addr_ok(
                old(self).params,
                hdr.destination,
            ),
            reaches_tree(
                *old(self),
                hdr.destination,
                old(self).route_table.routes.entries().len() >= ROUTE_TABLE_SIZE,
            ) ==> tree_ok(*old(self)),
        ensures
            r == spec_relay_unicast(*old(self), *hdr),
            same_but_routes(final(self), old(self)),
            final(self).neighbors == old(self).neighbors,
            final(self).route_table.discoveries == old(self).route_table.discoveries,
    {
        let dest = hdr.destination;
        if let Some(a) = self.try_unicast_direct_relay(dest) {
            return Forwarding::SendTo(a);
        }
        if !self.route_table.is_full() {
            match self.try_unicast_route_table(dest) {
                Forwarding::NotHandled => {},
                other => return other,
            }
            match hdr.control.route_discovery {
                DiscoverRoute::Enable => Forwarding::NotHandled,
                DiscoverRoute::Suppress => match self.try_unicast_tree_routing(dest) {
                    Some(a) => Forwarding::SendTo(a),
                    None => Forwarding::NotHandled,
                },
            }
        } else {
            match self.try_unicast_tree_routing(dest) {
                Some(a) => Forwarding::SendTo(a),
                None => Forwarding::NotHandled,
            }
        }
    }

    /// Routes a unicast data frame that this router originates (see
    /// [`spec_route_unicast`]): the next hop to send it to, `None` where it
    /// is kept.
    pub fn route_unicast_frame(&mut self, hdr: &NwkHeader) -> (r: Result<Option<NwkAddress>, NldeTransferError>)
        requires
            none_matches(old(self).neighbors.children@, is_end_device_child(hdr.destination)) ==> routing_addr_ok(
                old(self).params,
                hdr.destination,
            ),
            reaches_tree(
                *old(self),
                hdr.destination,
                old(self).route_table.routes.entries().len() >= ROUTE_TABLE_SIZE,
            ) ==> tree_ok(*old(self)),
        ensures
            r == spec_route_unicast(*old(self), hdr.destination),
            same_but_routes(final(self), old(self)),
            final(self).neighbors == old(self).neighbors,
            final(self).route_table.discoveries == old(self).route_table.discoveries,
    {
        let dest = hdr.destination;
        if let Some(a) = self.try_unicast_direct_relay(dest) {
            return Ok(Some(a));
        }
        if self.route_table.is_full() {
            if let Some(a) = self.try_unicast_tree_routing(dest) {
                return Ok(Some(a));
            }
        } else {
            match self.try_unicast_route_table(dest) {
                Forwarding::SendTo(a) => return Ok(Some(a)),
                Forwarding::Handled => return Ok(None),
                Forwarding::NotHandled => {},
            }
        }
        if self.has_source_route(dest) {
            Ok(None)
        } else {
            Err(NldeTransferError::RouteError)
        }
    }

    /// Whether a route record leads to the routing address of `dest` with
    /// few enough relays for source routing.
    pub fn has_source_route(&self, dest: NwkAddress) -> (r: bool)
        requires
            routing_addr_ok(self.params, dest),
        ensures
            r == has_source_route(*self, dest),
    {
        let ra = get_routing_address_for_address(&self.params, dest);
        let n = self.route_record_table.len();
        let mut i: usize = 0;
        while i < n
            invariant
                n == self.route_record_table@.len(),
                i <= n,
                ra == spec_routing_addr(self.params, dest),
                forall|j: int|
                    0 <= j < i ==> !(self.route_record_table@[j].network_address == ra
                        && self.route_record_table@[j].relay_count < NWK_MAX_SOURCE_ROUTE),
            decreases n - i,
        {
            let rec = self.route_record_table.get(i);
            if rec.network_address == ra && rec.relay_count < NWK_MAX_SOURCE_ROUTE {
                proof {
                    assert(self.route_record_table@[i as int] == *rec);
                }
                return true;
            }
            i = i + 1;
        }
        false
    }
}

/// What a router does with a broadcast data frame.
#[derive(Clone, Copy, Debug, PartialEq, Eq, Structural)]
pub enum BroadcastRelay {
    Drop,
    /// Taken, and handed up; it has no radius left to be sent on.
    Accept,
    /// Taken, handed up and sent on.
    AcceptAndRetransmit,
}

/// What a router does with a multicast data frame.
#[derive(Clone, Copy, Debug, PartialEq, Eq, Structural)]
pub enum MulticastRelay {
    Drop,
    /// Sent on as a member mode multicast, by broadcast, and handed up.
    Broadcast,
    /// Sent to the next hop of the group's route, and handed up.
    SendTo(NwkAddress),
}

/// Whether the broadcast transaction table takes the broadcast
/// `(source, sequence_number)` at `now`: it was not seen, and there is room
/// once the records that expired before `now` are dropped.
pub open spec fn spec_btt_accepts(t: Seq<TransactionRecord>, source: NwkAddress, sequence_number: u8, now: u64) -> bool {
    !spec_seen(t, source, sequence_number, now) && t.filter(unexpired_at(now)).len() < 64
}

/// The broadcast transaction table after it was asked to take a broadcast
/// (see [`RouterState::check_and_update_broadcast_transaction_table`]).
pub open spec fn spec_btt_after(
    t: Seq<TransactionRecord>,
    source: NwkAddress,
    sequence_number: u8,
    now: u64,
    delivery_time_ms: u64,
) -> Seq<TransactionRecord> {
    let kept = t.filter(unexpired_at(now));
    if spec_seen(t, source, sequence_number, now) {
        t
    } else if kept.len() < 64 {
        kept.push(spec_record(source, sequence_number, (now + delivery_time_ms) as u64))
    } else {
        kept
    }
}

/// Whether a frame is for this router (see [`RouterState::frame_matches_self`]).
pub open spec fn spec_matches_self(s: RouterState, hdr: NwkHeader) -> bool {
    spec_matches_end_device(s.addr, s.group_table@, hdr) || (hdr.destination.0 == 0xfffd && s.rx_on_when_idle)
        || hdr.destination.0 == BROADCAST_ROUTERS
}

/// The non-member radius a member mode multicast is sent on with, where
/// this device is not in the group: one less, below 7.
pub open spec fn spec_next_non_member_radius(nmr: u8) -> int {
    if nmr < 7 {
        nmr - 1
    } else {
        nmr as int
    }
}

/// Whether a member mode multicast is sent on: it must be taken by the
/// broadcast transaction table, and, where this device is not in the
/// group, keep some non-member radius.
pub open spec fn spec_member_relays(s: RouterState, hdr: NwkHeader, now: u64) -> bool {
    spec_btt_accepts(s.broadcast_transaction_table@, hdr.source, hdr.sequence_number, now) && (s.group_table@.contains(
        hdr.destination,
    ) || spec_next_non_member_radius(hdr.multicast_control->Some_0.non_member_radius) != 0)
}

/// The broadcast transaction table after a member mode multicast: the
/// record just made is dropped again where the frame goes no further.
pub open spec fn spec_member_btt(s: RouterState, hdr: NwkHeader, now: u64, delivery_time_ms: u64) -> Seq<TransactionRecord> {
    let t = s.broadcast_transaction_table@;
    if spec_btt_accepts(t, hdr.source, hdr.sequence_number, now) && !spec_member_relays(s, hdr, now) {
        t.filter(unexpired_at(now))
    } else {
        spec_btt_after(t, hdr.source, hdr.sequence_number, now, delivery_time_ms)
    }
}

/// Whether a member mode multicast can be handled: a frame taken by the
/// broadcast transaction table, for a group this device is not in, must
/// have some non-member radius left.
pub open spec fn member_ok(s: RouterState, hdr: NwkHeader, now: u64) -> bool {
    spec_btt_accepts(s.broadcast_transaction_table@, hdr.source, hdr.sequence_number, now)
        && !s.group_table@.contains(hdr.destination) ==> hdr.multicast_control->Some_0.non_member_radius != 0
}

/// Whether a multicast frame is relayed as a member mode multicast: it is
/// one, or its source is in a group of this device.
pub open spec fn spec_member_path(s: RouterState, hdr: NwkHeader) -> bool {
    hdr.multicast_control->Some_0.multicast_mode == MulticastMode::Member || s.group_table@.contains(hdr.source)
}

impl RouterState {
    /// Relays a broadcast data frame. A broadcast of this device's own
    /// before the broadcast delivery time has passed since start-up, and
    /// one not meant for this router, are dropped and change nothing;
    /// otherwise it is taken where the broadcast transaction table takes
    /// it, and sent on where it has radius left.
    pub fn relay_broadcast_frame(&mut self, hdr: &NwkHeader, now: u64, delivery_time_ms: u64) -> (r: BroadcastRelay)
        requires
            now + delivery_time_ms <= u64::MAX,
        ensures
            ({
                let t = old(self).broadcast_transaction_table@;
                if (hdr.source == old(self).addr && now < delivery_time_ms) || !spec_matches_self(*old(self), *hdr) {
                    r == BroadcastRelay::Drop && *final(self) == *old(self)
                } else {
                    &&& same_but_btt(final(self), old(self))
                    &&& final(self).broadcast_transaction_table@ == spec_btt_after(
                        t,
                        hdr.source,
                        hdr.sequence_number,
                        now,
                        delivery_time_ms,
                    )
                    &&& r == if !spec_btt_accepts(t, hdr.source, hdr.sequence_number, now) {
                        BroadcastRelay::Drop
                    } else if hdr.radius > 0 {
                        BroadcastRelay::AcceptAndRetransmit
                    } else {
                        BroadcastRelay::Accept
                    }
                }
            }),
    {
        if hdr.source == self.addr && now < delivery_time_ms {
            return BroadcastRelay::Drop;
        }
        if !self.frame_matches_self(hdr) {
            return BroadcastRelay::Drop;
        }
        if !self.check_and_update_broadcast_transaction_table(hdr.source, hdr.sequence_number, now, delivery_time_ms) {
            return BroadcastRelay::Drop;
        }
        if hdr.radius > 0 {
            BroadcastRelay::AcceptAndRetransmit
        } else {
            BroadcastRelay::Accept
        }
    }

    /// Relays a member mode multicast (see [`spec_member_relays`] and
    /// [`spec_member_btt`]): `true` where it is sent on by broadcast and
    /// handed up.
    pub fn relay_member_mode_multicast(&mut self, hdr: &NwkHeader, now: u64, delivery_time_ms: u64) -> (r: bool)
        requires
            hdr.multicast_control is Some,
            now + delivery_time_ms <= u64::MAX,
            member_ok(*old(self), *hdr, now),
        ensures
            same_but_btt(final(self), old(self)),
            r == spec_member_relays(*old(self), *hdr, now),
            final(self).broadcast_transaction_table@ == spec_member_btt(*old(self), *hdr, now, delivery_time_ms),
    {
        let mc = match hdr.multicast_control {
            Some(mc) => mc,
            None => return false,
        };
        let ghost t = self.broadcast_transaction_table@;
        if !self.check_and_update_broadcast_transaction_table(hdr.source, hdr.sequence_number, now, delivery_time_ms) {
            return false;
        }
        if !group_table_contains(&self.group_table, hdr.destination) {
            let mut nmr = mc.non_member_radius;
            if nmr < 0x07 {
                nmr = nmr - 1;
            }
            if nmr == 0 {
                let _ = self.broadcast_transaction_table.pop();
                proof {
                    let kept = t.filter(unexpired_at(now));
                    assert(kept.push(spec_record(hdr.source, hdr.sequence_number, (now + delivery_time_ms) as u64)).drop_last() =~= kept);
                }
                return false;
            }
        }
        true
    }

    /// Relays a multicast data frame. A member mode multicast, or one
    /// whose source is in a group of this device, is relayed as a member
    /// mode multicast (see [`RouterState::relay_member_mode_multicast`]);
    /// any other goes along a usable route to the group, which becomes
    /// active, or is dropped.
    pub fn relay_multicast_frame(&mut self, hdr: &NwkHeader, now: u64, delivery_time_ms: u64) -> (r: MulticastRelay)
        requires
            hdr.multicast_control is Some,
            now + delivery_time_ms <= u64::MAX,
            spec_member_path(*old(self), *hdr) ==> member_ok(*old(self), *hdr, now),
        ensures
            spec_member_path(*old(self), *hdr) ==> {
                &&& same_but_btt(final(self), old(self))
                &&& final(self).broadcast_transaction_table@ == spec_member_btt(*old(self), *hdr, now, delivery_time_ms)
                &&& r == if spec_member_relays(*old(self), *hdr, now) {
                    MulticastRelay::Broadcast
                } else {
                    MulticastRelay::Drop
                }
            },
            !spec_member_path(*old(self), *hdr) ==> {
                &&& same_but_routes(final(self), old(self))
                &&& final(self).route_table.routes.entries() == spec_routes_after(*old(self), group_key(hdr.destination))
                &&& final(self).route_table.discoveries == old(self).route_table.discoveries
                &&& r == match old(self).route_table.routes.spec_get(group_key(hdr.destination)) {
                    Some(e) => if usable(e) {
                        MulticastRelay::SendTo(e.next_hop_addr)
                    } else {
                        MulticastRelay::Drop
                    },
                    None => MulticastRelay::Drop,
                }
            },
    {
        let mode = match hdr.multicast_control {
            Some(mc) => mc.multicast_mode,
            None => return MulticastRelay::Drop,
        };
        let member = match mode {
            MulticastMode::Member => true,
            MulticastMode::NonMember => group_table_contains(&self.group_table, hdr.source),
        };
        if member {
            if self.relay_member_mode_multicast(hdr, now, delivery_time_ms) {
                MulticastRelay::Broadcast
            } else {
                MulticastRelay::Drop
            }
        } else {
            match self.route_along(RouteEntryKey { addr: hdr.destination, is_group: true }) {
                Some(a) => MulticastRelay::SendTo(a),
                None => MulticastRelay::Drop,
            }
        }
    }

    /// The next hop of a usable route of `key`, which becomes active.
    pub fn route_along(&mut self, key: RouteEntryKey) -> (r: Option<NwkAddress>)
        ensures
            same_but_routes(final(self), old(self)),
            final(self).route_table.routes.entries() == spec_routes_after(*old(self), key),
            final(self).route_table.discoveries == old(self).route_table.discoveries,
            r == match old(self).route_table.routes.spec_get(key) {
                Some(e) => if usable(e) {
                    Some(e.next_hop_addr)
                } else {
                    None
                },
                None => None,
            },
    {
        let entry = match self.route_table.routes.get(&key) {
            Some(e) => *e,
            None => return None,
        };
        match entry.status {
            RouteStatus::Active | RouteStatus::ValidationUnderway => {
                let _ = self.route_table.routes.insert(key, RouteEntry { status: RouteStatus::Active, ..entry });
                Some(entry.next_hop_addr)
            },
            _ => None,
        }
    }

    /// Routes a multicast data frame this router originates. For a group
    /// of its own, the broadcast transaction table keeps the records that
    /// have not expired at `now` and records the frame where there is room,
    /// and nothing is sent yet (`None`); for another group the frame goes
    /// along a usable route, which becomes active, or nowhere.
    pub fn route_multicast_frame(&mut self, hdr: &NwkHeader, now: u64, delivery_time_ms: u64) -> (r: Option<NwkAddress>)
        requires
            hdr.multicast_control is Some,
            now + delivery_time_ms <= u64::MAX,
        ensures
            old(self).group_table@.contains(hdr.destination) ==> {
                let kept = old(self).broadcast_transaction_table@.filter(unexpired_at(now));
                &&& r is None
                &&& same_but_btt(final(self), old(self))
                &&& final(self).broadcast_transaction_table@ == if kept.len() < 64 {
                    kept.push(spec_record(hdr.source, hdr.sequence_number, (now + delivery_time_ms) as u64))
                } else {
                    kept
                }
            },
            !old(self).group_table@.contains(hdr.destination) ==> {
                &&& same_but_routes(final(self), old(self))
                &&& final(self).route_table.routes.entries() == spec_routes_after(*old(self), group_key(hdr.destination))
                &&& final(self).route_table.discoveries == old(self).route_table.discoveries
                &&& r == match old(self).route_table.routes.spec_get(group_key(hdr.destination)) {
                    Some(e) => if usable(e) {
                        Some(e.next_hop_addr)
                    } else {
                        None
                    },
                    None => None,
                }
            },
    {
        if group_table_contains(&self.group_table, hdr.destination) {
            let ghost t = self.broadcast_transaction_table@;
            let ghost pred = unexpired_at(now);
            let n = self.broadcast_transaction_table.len();
            let mut kept: BroadcastTransactionTable = crate::collections::Vec::new();
            let mut k: usize = 0;
            proof {
                assert(t.subrange(0, 0) =~= Seq::<TransactionRecord>::empty());
            }
            while k < n
                invariant
                    n == t.len(),
                    n <= 64,
                    t == self.broadcast_transaction_table@,
                    k <= n,
                    kept@ == t.subrange(0, k as int).filter(pred),
                    pred == unexpired_at(now),
                decreases n - k,
            {
                let rec = *self.broadcast_transaction_table.get(k);
                proof {
                    lemma_filter_step(t, pred, k as int);
                }
                if rec.expiration_time >= now {
                    let _ = kept.push(rec);
                }
                k = k + 1;
            }
            proof {
                assert(t.subrange(0, n as int) =~= t);
            }
            let _ = kept.push(
                TransactionRecord {
                    source_address: hdr.source,
                    sequence_number: hdr.sequence_number,
                    expiration_time: now + delivery_time_ms,
                },
            );
            self.broadcast_transaction_table = kept;
            None
        } else {
            self.route_along(RouteEntryKey { addr: hdr.destination, is_group: true })
        }
    }
}

/// A broadcast that the broadcast transaction table takes is recorded as
/// seen: the same broadcast is not taken again until its delivery time has
/// passed.
pub proof fn lemma_broadcast_taken_once(
    t: Seq<TransactionRecord>,
    source: NwkAddress,
    sequence_number: u8,
    now: u64,
    delivery_time_ms: u64,
    later: u64,
)
    requires
        spec_btt_accepts(t, source, sequence_number, now),
        now + delivery_time_ms <= u64::MAX,
        now <= later <= now + delivery_time_ms,
    ensures
        spec_seen(spec_btt_after(t, source, sequence_number, now, delivery_time_ms), source, sequence_number, later),
        !spec_btt_accepts(spec_btt_after(t, source, sequence_number, now, delivery_time_ms), source, sequence_number, later),
{
    let kept = t.filter(unexpired_at(now));
    let after = spec_btt_after(t, source, sequence_number, now, delivery_time_ms);
    assert(after == kept.push(spec_record(source, sequence_number, (now + delivery_time_ms) as u64)));
    assert(after[kept.len() as int] == spec_record(source, sequence_number, (now + delivery_time_ms) as u64));
}

/// A broadcast seen and not expired at `later` stays seen when the table
/// takes (or refuses) any broadcast at a time up to `later`: records that
/// have not expired are never dropped.
pub proof fn lemma_seen_kept(
    t: Seq<TransactionRecord>,
    source: NwkAddress,
    sequence_number: u8,
    later: u64,
    other_source: NwkAddress,
    other_sequence_number: u8,
    now: u64,
    delivery_time_ms: u64,
)
    requires
        spec_seen(t, source, sequence_number, later),
        now <= later,
    ensures
        spec_seen(
            spec_btt_after(t, other_source, other_sequence_number, now, delivery_time_ms),
            source,
            sequence_number,
            later,
        ),
{
    let i = choose|i: int|
        0 <= i < t.len() && t[i].source_address == source && t[i].sequence_number == sequence_number
            && t[i].expiration_time >= later;
    let kept = t.filter(unexpired_at(now));
    if !spec_seen(t, other_source, other_sequence_number, now) {
        t.lemma_filter_contains(unexpired_at(now), i);
        assert(kept.contains(t[i]));
        let k = choose|k: int| 0 <= k < kept.len() && kept[k] == t[i];
        if kept.len() < 64 {
            let after = kept.push(spec_record(other_source, other_sequence_number, (now + delivery_time_ms) as u64));
            assert(after[k] == t[i]);
        }
    }
}

} // verus!
