//! What a router or coordinator decides on what it receives: neighbor
//! upkeep, broadcasts already seen, address conflicts, rejoins and new
//! children. Sending what is decided is left to the caller.
use vstd::prelude::*;

use rand::rngs::SmallRng;
use rand::RngExt;

use crate::collections::{lemma_filter_step, Vec};
use crate::common::{DeviceType, ExtendedAddress, NwkAddress, BROADCAST_ROUTERS, MAX_NON_BROADCAST};
use crate::mac::{MacAddress, MacCapabilities, MacDeviceType};
use crate::nwk::commands::{
    EndDeviceTimeoutRequest, EndDeviceTimeoutResponse, EndDeviceTimeoutResponseStatus, LinkCost, ParentInformation,
    LinkStatusCmd, LinkStatusEntry, RejoinResponse,
};
use crate::nwk::constants::{NWK_LINK_STATUS_PERIOD, NWK_ROUTER_AGE_LIMIT};
use crate::nwk::frame::header::{spec_cmd_header, HeaderContext, NwkHeader, NwkHeaderView};
use crate::nwk::emission::{advanced, end_device_timeout_response_frame, spec_parent_information};
use crate::nwk::frame::{NwkFrame, NwkFrameView};
use crate::nwk::constants::NWK_LEAVE_REQUEST_ALLOWED;
use crate::nwk::nlde::{return_data_indication, NldeDataIndicationDstAddress, NldeTransferError, NlmeLeaveIndication, NwkIndication};
use crate::nwk::nib::{
    alive_at, finds, first_index, has_ext, has_ext_and_type, has_short, has_short_and_type,
    lacks_ext, lacks_short, lemma_finds_spec_find, none_matches, spec_addr_map_after, spec_default_timeout, spec_find, stores_ext,
    AddressMap, BroadcastTransactionTable, NeighborRelationship, NeighborTable, NewNwkNeighbour,
    NwkNeighbor, RouteRecordTable, TransactionRecord, NEIGHBOR_TABLE_MAX_ENTRIES,
};
use crate::collections::{entries_get, entries_has, entries_put};
use crate::nwk::commands::{Command, CommandView, Leave, LinkStatus, LinkStatusOptions, ManyToOne, NetworkStatusCode, RouteReply, RouteReplyOptions, RouteRequest};
use crate::nwk::constants::{ROUTE_DISCOVERY_TIME_MS, WAIT_BEFORE_VALIDATION_MS};
use crate::nwk::nib::RouteStatus;
use crate::nwk::routing::{
    compute_routing_cost, DiscoveryKey, RouteDiscoveryEntry, RouteDiscoveryRequestAddress, RouteEntry,
    RouteEntryKey, RouteError, RouteRequestCmd, RouteTable, ROUTE_DISCOVERY_TABLE_SIZE, ROUTE_TABLE_SIZE,
};
use crate::stack_profile::{AddrAllocMethod, SecurityLevel, StackProfileParams};

verus! {

/// The multicast groups this device belongs to (64 at most).
pub type GroupTable = Vec<NwkAddress, 64>;

/// What a routing device keeps of the network.
pub struct RouterState {
    pub addr: NwkAddress,
    pub ext_addr: ExtendedAddress,
    pub params: StackProfileParams,
    pub rx_on_when_idle: bool,
    pub neighbors: NeighborTable,
    pub group_table: GroupTable,
    pub addr_map: AddressMap,
    pub broadcast_transaction_table: BroadcastTransactionTable,
    pub route_record_table: RouteRecordTable,
    pub route_table: RouteTable,
}

/// How long a link status keeps a neighbor alive: the link status period
/// times the router age limit, in milliseconds.
pub open spec fn spec_link_status_lifetime_ms() -> nat {
    NWK_LINK_STATUS_PERIOD as nat * NWK_ROUTER_AGE_LIMIT as nat * 1000
}

/// Two states that differ at most in the children of the neighbor table.
pub open spec fn same_but_children(a: &RouterState, b: &RouterState) -> bool {
    &&& a.addr == b.addr
    &&& a.ext_addr == b.ext_addr
    &&& a.params == b.params
    &&& a.rx_on_when_idle == b.rx_on_when_idle
    &&& a.neighbors.parent == b.neighbors.parent
    &&& a.group_table == b.group_table
    &&& a.addr_map == b.addr_map
    &&& a.broadcast_transaction_table == b.broadcast_transaction_table
    &&& a.route_record_table == b.route_record_table
    &&& a.route_table == b.route_table
}

/// Two states that differ at most in the broadcast transaction table.
pub open spec fn same_but_btt(a: &RouterState, b: &RouterState) -> bool {
    &&& a.addr == b.addr
    &&& a.ext_addr == b.ext_addr
    &&& a.params == b.params
    &&& a.rx_on_when_idle == b.rx_on_when_idle
    &&& a.neighbors == b.neighbors
    &&& a.group_table == b.group_table
    &&& a.addr_map == b.addr_map
    &&& a.route_record_table == b.route_record_table
    &&& a.route_table == b.route_table
}

/// The entries of a link status list that name `slf`.
pub open spec fn names(slf: NwkAddress) -> spec_fn(LinkStatusEntry) -> bool {
    |e: LinkStatusEntry| e.neighbor_address == slf
}

/// Two first indices of one predicate are the same.
pub proof fn lemma_first_index_unique<T>(s: Seq<T>, pred: spec_fn(T) -> bool, i: int, j: int)
    requires
        first_index(s, pred, i),
        first_index(s, pred, j),
    ensures
        i == j,
{
    if i < j {
        assert(!pred(s[i]));
    } else if j < i {
        assert(!pred(s[j]));
    }
}

/// The incoming cost that a link status list gives for `slf`: that of the
/// first entry naming it, or unknown where none does.
pub open spec fn spec_cost_for(entries: Seq<LinkStatusEntry>, slf: NwkAddress) -> LinkCost {
    if exists|i: int| first_index(entries, names(slf), i) {
        entries[choose|i: int| first_index(entries, names(slf), i)].link_status.incoming_cost
    } else {
        LinkCost::Unknown
    }
}

/// Whether `slf` falls in the range of addresses a link status frame covers:
/// the list is not empty, a first frame does not start above `slf`, a last
/// frame does not end below it.
pub open spec fn spec_link_status_covers(
    slf: NwkAddress,
    first_frame: bool,
    last_frame: bool,
    entries: Seq<LinkStatusEntry>,
) -> bool {
    &&& entries.len() > 0
    &&& !(first_frame && slf.0 < entries[0].neighbor_address.0)
    &&& !(last_frame && slf.0 > entries.last().neighbor_address.0)
}

/// The neighbor after a link status from it: alive for the lifetime from
/// `now`, and with the outgoing cost the frame gives where it covers `slf`.
pub open spec fn spec_after_link_status(
    nb: NwkNeighbor,
    slf: NwkAddress,
    first_frame: bool,
    last_frame: bool,
    entries: Seq<LinkStatusEntry>,
    now: u64,
) -> NwkNeighbor {
    NwkNeighbor {
        expiration: (now + spec_link_status_lifetime_ms()) as u64,
        outgoing_cost: if spec_link_status_covers(slf, first_frame, last_frame, entries) {
            spec_cost_for(entries, slf)
        } else {
            nb.outgoing_cost
        },
        ..nb
    }
}

/// A link status from a neighbor, stated on its entries: the neighbor lives
/// on for the link status lifetime from `now`; where the frame covers this
/// device (a non-empty list, a first frame starting at or below it, a last
/// frame ending at or above it), the neighbor's outgoing cost becomes the
/// incoming cost of the first entry naming this device, or unknown where
/// none does; otherwise the cost stays. Nothing else of the neighbor changes.
pub proof fn lemma_link_status_received(
    nb: NwkNeighbor,
    slf: NwkAddress,
    first_frame: bool,
    last_frame: bool,
    entries: Seq<LinkStatusEntry>,
    now: u64,
    i: int,
)
    ensures
        ({
            let r = spec_after_link_status(nb, slf, first_frame, last_frame, entries, now);
            let covers = entries.len() > 0 && !(first_frame && slf.0 < entries[0].neighbor_address.0) && !(last_frame
                && slf.0 > entries[entries.len() - 1].neighbor_address.0);
            &&& r.expiration == (now + spec_link_status_lifetime_ms()) as u64
            &&& r == NwkNeighbor { expiration: r.expiration, outgoing_cost: r.outgoing_cost, ..nb }
            &&& !covers ==> r.outgoing_cost == nb.outgoing_cost
            &&& (covers && 0 <= i < entries.len() && entries[i].neighbor_address == slf && (forall|j: int|
                0 <= j < i ==> entries[j].neighbor_address != slf)) ==> r.outgoing_cost
                == entries[i].link_status.incoming_cost
            &&& (covers && (forall|j: int| 0 <= j < entries.len() ==> entries[j].neighbor_address != slf))
                ==> r.outgoing_cost == LinkCost::Unknown
        }),
{
    let covers = entries.len() > 0 && !(first_frame && slf.0 < entries[0].neighbor_address.0) && !(last_frame
        && slf.0 > entries[entries.len() - 1].neighbor_address.0);
    if covers && 0 <= i < entries.len() && entries[i].neighbor_address == slf && (forall|j: int|
        0 <= j < i ==> entries[j].neighbor_address != slf) {
        assert(first_index(entries, names(slf), i));
        let k = choose|k: int| first_index(entries, names(slf), k);
        lemma_first_index_unique(entries, names(slf), i, k);
    }
    if covers && (forall|j: int| 0 <= j < entries.len() ==> entries[j].neighbor_address != slf) {
        if exists|k: int| first_index(entries, names(slf), k) {
            let k = choose|k: int| first_index(entries, names(slf), k);
            assert(entries[k].neighbor_address != slf);
        }
    }
}

/// Whether `a` is taken, with `children` as the children: by this device,
/// as a next hop, in a route record, as the source of a broadcast seen, by
/// a child, or in the address map.
pub open spec fn spec_address_taken(s: &RouterState, children: Seq<NwkNeighbor>, a: NwkAddress) -> bool {
    ||| s.addr == a
    ||| exists|i: int|
        0 <= i < s.route_table.routes.entries().len()
            && s.route_table.routes.entries()[i].1.next_hop_addr == a
    ||| exists|i: int|
        0 <= i < s.route_record_table@.len() && (s.route_record_table@[i].network_address == a
            || s.route_record_table@[i].path@.contains(a))
    ||| exists|i: int|
        0 <= i < s.broadcast_transaction_table@.len()
            && s.broadcast_transaction_table@[i].source_address == a
    ||| exists|i: int| 0 <= i < children.len() && children[i].nwk_addr == a
    ||| exists|i: int| 0 <= i < s.addr_map.map.entries().len() && s.addr_map.map.entries()[i].0 == a
}

/// Whether `a` is taken in the state `s` (see [`spec_address_taken`]).
pub open spec fn spec_address_in_use(s: &RouterState, a: NwkAddress) -> bool {
    spec_address_taken(s, s.neighbors.children@, a)
}

/// The small fast generator of the `rand` crate; nothing inside it is seen
/// here.
#[verifier::external_type_specification]
#[verifier::external_body]
pub struct ExSmallRng(SmallRng);

/// `RngExt::random_range` of the `rand` crate on `low..high`: a value drawn
/// from the generator, at least `low` and below `high`. Which value comes
/// depends on the generator's state, so nothing more is stated.
#[verifier::external_body]
fn random_u16_below(rng: &mut SmallRng, low: u16, high: u16) -> (r: u16)
    requires
        low < high,
    ensures
        low <= r < high,
{
    rng.random_range(low..high)
}

/// The incoming cost that `entries` gives for `slf`.
fn link_cost_for(entries: &Vec<LinkStatusEntry, 16>, slf: NwkAddress) -> (r: LinkCost)
    ensures
        r == spec_cost_for(entries@, slf),
{
    let n = entries.len();
    let mut k: usize = 0;
    while k < n
        invariant
            n == entries@.len(),
            k <= n,
            forall|j: int| 0 <= j < k ==> !names(slf)(#[trigger] entries@[j]),
        decreases n - k,
    {
        let e = entries.get(k);
        if e.neighbor_address == slf {
            proof {
                assert(first_index(entries@, names(slf), k as int));
                let c = choose|c: int| first_index(entries@, names(slf), c);
                lemma_first_index_unique(entries@, names(slf), k as int, c);
            }
            return e.link_status.incoming_cost;
        }
        k = k + 1;
    }
    proof {
        assert forall|c: int| !first_index(entries@, names(slf), c) by {
            if first_index(entries@, names(slf), c) {
                assert(!names(slf)(entries@[c]));
            }
        }
    }
    LinkCost::Unknown
}

impl RouterState {
    /// Handles a link status command from the neighbor `mac_src_addr`: the
    /// first child with that address lives on for the link status lifetime
    /// and, where the frame covers this device, takes the incoming cost it
    /// lists for this device (unknown where it lists none) as its outgoing
    /// cost. Without such a child nothing changes.
    pub fn handle_link_status_command(&mut self, mac_src_addr: NwkAddress, cmd: &LinkStatusCmd, now: u64)
        requires
            now + spec_link_status_lifetime_ms() <= u64::MAX,
        ensures
            same_but_children(final(self), old(self)),
            none_matches(old(self).neighbors.children@, has_short(mac_src_addr))
                ==> final(self).neighbors.children@ == old(self).neighbors.children@,
            forall|i: int|
                first_index(old(self).neighbors.children@, has_short(mac_src_addr), i)
                    ==> final(self).neighbors.children@ == old(self).neighbors.children@.update(
                    i,
                    spec_after_link_status(
                        old(self).neighbors.children@[i],
                        old(self).addr,
                        cmd.command_options.first_frame,
                        cmd.command_options.last_frame,
                        cmd.entries@,
                        now,
                    ),
                ),
    {
        let idx = match self.neighbors.find_by_short_addr(mac_src_addr) {
            Some(i) => i,
            None => return ,
        };
        let slf = self.addr;
        let mut nb = *self.neighbors.children.get(idx);
        let lifetime: u64 = NWK_LINK_STATUS_PERIOD as u64 * NWK_ROUTER_AGE_LIMIT as u64 * 1000;
        nb.expiration = now + lifetime;
        let opt = cmd.command_options;
        let n = cmd.entries.len();
        let covers = n > 0 && !(opt.first_frame && slf.0 < cmd.entries.get(0).neighbor_address.0)
            && !(opt.last_frame && slf.0 > cmd.entries.get(n - 1).neighbor_address.0);
        if covers {
            let cost = link_cost_for(&cmd.entries, slf);
            assert(cost == spec_cost_for(cmd.entries@, slf));
            nb.outgoing_cost = cost;
        }
        proof {
            let e = cmd.entries@;
            assert(covers == spec_link_status_covers(slf, opt.first_frame, opt.last_frame, e));
            assert(nb == spec_after_link_status(
                old(self).neighbors.children@[idx as int],
                slf,
                opt.first_frame,
                opt.last_frame,
                e,
                now,
            ));
        }
        self.neighbors.children.set(idx, nb);
        proof {
            assert forall|i: int|
                first_index(old(self).neighbors.children@, has_short(mac_src_addr), i) implies i
                == idx as int by {
                lemma_first_index_unique(
                    old(self).neighbors.children@,
                    has_short(mac_src_addr),
                    i,
                    idx as int,
                );
            }
        }
    }
}

/// The record kept for a broadcast: source, sequence number and the instant
/// it expires.
pub open spec fn spec_record(source: NwkAddress, sequence_number: u8, expires: u64) -> TransactionRecord {
    TransactionRecord { source_address: source, sequence_number, expiration_time: expires }
}

/// A record of the broadcast `(source, sequence_number)` that has not
/// expired at `now`.
pub open spec fn spec_seen(t: Seq<TransactionRecord>, source: NwkAddress, sequence_number: u8, now: u64) -> bool {
    exists|i: int|
        0 <= i < t.len() && t[i].source_address == source && t[i].sequence_number
            == sequence_number && t[i].expiration_time >= now
}

/// The records of the broadcast transaction table that have not expired
/// at `now`.
pub open spec fn unexpired_at(now: u64) -> spec_fn(TransactionRecord) -> bool {
    |t: TransactionRecord| t.expiration_time >= now
}

/// Whether a data frame is for an end device: to its group, to its address
/// or to all devices.
pub open spec fn spec_matches_end_device(addr: NwkAddress, groups: Seq<NwkAddress>, hdr: NwkHeader) -> bool {
    if hdr.control.multicast {
        groups.contains(hdr.destination)
    } else {
        hdr.destination == addr || hdr.destination.0 == 0xffff
    }
}

/// Whether a data frame is for an end device (see [`spec_matches_end_device`]).
pub fn frame_matches_self_end_device(addr: NwkAddress, groups: &GroupTable, hdr: &NwkHeader) -> (r: bool)
    ensures
        r == spec_matches_end_device(addr, groups@, *hdr),
{
    let dst = hdr.destination;
    if hdr.control.multicast {
        let n = groups.len();
        let mut i: usize = 0;
        while i < n
            invariant
                n == groups@.len(),
                i <= n,
                dst == hdr.destination,
                hdr.control.multicast,
                forall|j: int| 0 <= j < i ==> groups@[j] != dst,
            decreases n - i,
        {
            if *groups.get(i) == dst {
                proof {
                    assert(groups@[i as int] == dst);
                }
                return true;
            }
            i = i + 1;
        }
        false
    } else {
        dst == addr || dst.0 == 0xffff
    }
}

/// The children after a frame with the header `header`, from `mac_src`,
/// is examined for an end device child that changed parents (see
/// [`RouterState::examine_end_devices_that_have_changed_router_parents`]).
pub open spec fn spec_examined(
    s: &RouterState,
    header: NwkHeader,
    mac_src: MacAddress,
    children: Seq<NwkNeighbor>,
) -> bool {
    let c = s.neighbors.children@;
    let p = has_short_and_type(header.source, DeviceType::EndDevice);
    let direct = mac_src matches MacAddress::Short(_, a) && a == header.source;
    let seen = header.source.spec_is_broadcast() && exists|j: int|
        0 <= j < s.broadcast_transaction_table@.len()
            && s.broadcast_transaction_table@[j].source_address == header.source
            && s.broadcast_transaction_table@[j].sequence_number == header.sequence_number;
    if none_matches(c, p) || direct || seen {
        children == c
    } else {
        forall|i: int| first_index(c, p, i) ==> children == c.remove(i)
    }
}

/// The answer to an end device timeout request from `mac_src` (one whose
/// extended address is known): an incorrect value where a configuration is
/// asked for, success where the sender is an end device child, none
/// otherwise.
pub open spec fn spec_timeout_status(
    c: Seq<NwkNeighbor>,
    mac_src: NwkAddress,
    cmd: EndDeviceTimeoutRequest,
) -> Option<EndDeviceTimeoutResponseStatus> {
    if cmd.end_device_configuration != 0 {
        Some(EndDeviceTimeoutResponseStatus::IncorrectValue)
    } else if none_matches(c, has_short_and_type(mac_src, DeviceType::EndDevice)) {
        None
    } else {
        Some(EndDeviceTimeoutResponseStatus::Success)
    }
}

/// A timeout request that asks for an end device configuration is answered
/// with an incorrect value; one that asks for none is answered with
/// success exactly where an end device child has the sender's short
/// address, and not at all otherwise.
pub proof fn lemma_timeout_status(c: Seq<NwkNeighbor>, mac_src: NwkAddress, cmd: EndDeviceTimeoutRequest)
    ensures
        cmd.end_device_configuration != 0 ==> spec_timeout_status(c, mac_src, cmd) == Some(
            EndDeviceTimeoutResponseStatus::IncorrectValue,
        ),
        cmd.end_device_configuration == 0 ==> (spec_timeout_status(c, mac_src, cmd) == Some(
            EndDeviceTimeoutResponseStatus::Success,
        ) <==> exists|j: int|
            0 <= j < c.len() && #[trigger] c[j].nwk_addr == mac_src && c[j].device_type == DeviceType::EndDevice),
        cmd.end_device_configuration == 0 ==> (spec_timeout_status(c, mac_src, cmd) is None <==> forall|j: int|
            0 <= j < c.len() && #[trigger] c[j].nwk_addr == mac_src ==> c[j].device_type != DeviceType::EndDevice),
{
}

/// The children `c2` after an end device timeout request to the children
/// `c`: where it succeeds, the first end device child with the sender's
/// address expires after the requested timeout and keeps it; otherwise
/// nothing changes.
pub open spec fn spec_timeout_updated(
    c: Seq<NwkNeighbor>,
    c2: Seq<NwkNeighbor>,
    mac_src: NwkAddress,
    source_ieee: Option<ExtendedAddress>,
    cmd: EndDeviceTimeoutRequest,
    now: u64,
) -> bool {
    let p = has_short_and_type(mac_src, DeviceType::EndDevice);
    if source_ieee is None || spec_timeout_status(c, mac_src, cmd) != Some(
        EndDeviceTimeoutResponseStatus::Success,
    ) {
        c2 == c
    } else {
        forall|i: int|
            first_index(c, p, i) ==> c2 == c.update(
                i,
                NwkNeighbor {
                    expiration: (now + cmd.requested_timeout.spec_duration_ms()) as u64,
                    device_timeout: cmd.requested_timeout,
                    end_device_configuration: cmd.end_device_configuration,
                    ..c[i]
                },
            )
    }
}

impl RouterState {
    /// Handles an end device timeout request from `mac_src_addr`. Without
    /// the sender's extended address nothing is done; a configuration other
    /// than 0 is answered with `IncorrectValue`; otherwise the first end
    /// device child with that address takes the requested timeout, from
    /// `now` on, and the request is answered with `Success`. Without such a
    /// child nothing is answered.
    pub fn handle_end_device_timeout_request_command(
        &mut self,
        mac_src_addr: NwkAddress,
        source_ieee: Option<ExtendedAddress>,
        cmd: &EndDeviceTimeoutRequest,
        now: u64,
    ) -> (r: Option<EndDeviceTimeoutResponseStatus>)
        requires
            now + cmd.requested_timeout.spec_duration_ms() <= u64::MAX,
        ensures
            same_but_children(final(self), old(self)),
            r == (if source_ieee is None {
                None
            } else {
                spec_timeout_status(old(self).neighbors.children@, mac_src_addr, *cmd)
            }),
            spec_timeout_updated(
                old(self).neighbors.children@,
                final(self).neighbors.children@,
                mac_src_addr,
                source_ieee,
                *cmd,
                now,
            ),
    {
        if source_ieee.is_none() {
            return None;
        }
        if cmd.end_device_configuration != 0 {
            return Some(EndDeviceTimeoutResponseStatus::IncorrectValue);
        }
        let idx = match self.neighbors.find_by_short_addr_and_device_type(
            mac_src_addr,
            DeviceType::EndDevice,
        ) {
            Some(i) => i,
            None => return None,
        };
        let mut nb = *self.neighbors.children.get(idx);
        nb.expiration = now + cmd.requested_timeout.get_duration_ms();
        nb.device_timeout = cmd.requested_timeout;
        nb.end_device_configuration = cmd.end_device_configuration;
        self.neighbors.children.set(idx, nb);
        proof {
            let c = old(self).neighbors.children@;
            let p = has_short_and_type(mac_src_addr, DeviceType::EndDevice);
            assert(!none_matches(c, p)) by {
                assert(p(c[idx as int]));
            }
            assert forall|i: int| first_index(c, p, i) implies i == idx as int by {
                lemma_first_index_unique(c, p, i, idx as int);
            }
        }
        Some(EndDeviceTimeoutResponseStatus::Success)
    }

    /// Handles an end device timeout request (see
    /// [`RouterState::handle_end_device_timeout_request_command`]) and makes
    /// the response to send: from this device, one hop, to the short
    /// address the request came from and the extended address it carries,
    /// with the status decided; none where no response is due.
    pub fn answer_end_device_timeout_request(
        &mut self,
        ctx: &mut HeaderContext,
        mac_src_addr: NwkAddress,
        source_ieee: Option<ExtendedAddress>,
        cmd: &EndDeviceTimeoutRequest,
        now: u64,
    ) -> (r: Option<NwkFrame>)
        requires
            now + cmd.requested_timeout.spec_duration_ms() <= u64::MAX,
        ensures
            same_but_children(final(self), old(self)),
            spec_timeout_updated(
                old(self).neighbors.children@,
                final(self).neighbors.children@,
                mac_src_addr,
                source_ieee,
                *cmd,
                now,
            ),
            match r {
                None => *final(ctx) == *old(ctx),
                Some(f) => advanced(*old(ctx), *final(ctx)) && source_ieee is Some && f@
                    == NwkFrameView::NwkCommand(
                    spec_cmd_header(*old(ctx), mac_src_addr, source_ieee, Some(1)),
                    CommandView::EndDeviceTimeoutResponse(
                        EndDeviceTimeoutResponse {
                            status: spec_timeout_status(old(self).neighbors.children@, mac_src_addr, *cmd)->Some_0,
                            parent_information: spec_parent_information(),
                        },
                    ),
                ),
            },
            source_ieee is None ==> r is None,
            source_ieee is Some ==> (r is Some <==> spec_timeout_status(
                old(self).neighbors.children@,
                mac_src_addr,
                *cmd,
            ) is Some),
    {
        let status = self.handle_end_device_timeout_request_command(mac_src_addr, source_ieee, cmd, now);
        match (status, source_ieee) {
            (Some(st), Some(ext)) => Some(end_device_timeout_response_frame(ctx, mac_src_addr, ext, st)),
            _ => None,
        }
    }

    /// Checks a broadcast `(source, sequence_number)` against the broadcast
    /// transaction table. One seen and not expired at `now` gives `false`
    /// and leaves the table as it is. Otherwise the records that expired
    /// before `now` are dropped, then the broadcast is recorded to expire
    /// after `delivery_time_ms`; the result says whether it fitted.
    pub fn check_and_update_broadcast_transaction_table(
        &mut self,
        source: NwkAddress,
        sequence_number: u8,
        now: u64,
        delivery_time_ms: u64,
    ) -> (r: bool)
        requires
            now + delivery_time_ms <= u64::MAX,
        ensures
            same_but_btt(final(self), old(self)),
            ({
                let t = old(self).broadcast_transaction_table@;
                let kept = t.filter(unexpired_at(now));
                let rec = spec_record(source, sequence_number, (now + delivery_time_ms) as u64);
                if spec_seen(t, source, sequence_number, now) {
                    !r && final(self).broadcast_transaction_table@ == t
                } else {
                    r == (kept.len() < 64) && final(self).broadcast_transaction_table@ == (if kept.len()
                        < 64 {
                        kept.push(rec)
                    } else {
                        kept
                    })
                }
            }),
    {
        let ghost t = self.broadcast_transaction_table@;
        let n = self.broadcast_transaction_table.len();
        let mut i: usize = 0;
        while i < n
            invariant
                n == t.len(),
                t == self.broadcast_transaction_table@,
                i <= n,
                forall|j: int|
                    0 <= j < i ==> !(t[j].source_address == source && t[j].sequence_number
                        == sequence_number && t[j].expiration_time >= now),
            decreases n - i,
        {
            let rec = *self.broadcast_transaction_table.get(i);
            if rec.source_address == source && rec.sequence_number == sequence_number
                && rec.expiration_time >= now {
                return false;
            }
            i = i + 1;
        }
        let ghost pred = unexpired_at(now);
        let mut kept: BroadcastTransactionTable = Vec::new();
        let mut k: usize = 0;
        proof {
            reveal_with_fuel(Seq::filter, 1);
            assert(t.subrange(0, 0) =~= Seq::<TransactionRecord>::empty());
        }
        while k < n
            invariant
                n == t.len(),
                n <= 64,
                t == self.broadcast_transaction_table@,
                k <= n,
                kept@ == t.subrange(0, k as int).filter(pred),
                pred == unexpired_at(now),
            decreases n - k,
        {
            let rec = *self.broadcast_transaction_table.get(k);
            proof {
                lemma_filter_step(t, pred, k as int);
                assert(pred(t[k as int]) == (rec.expiration_time >= now));
            }
            if rec.expiration_time >= now {
                let _ = kept.push(rec);
            }
            k = k + 1;
        }
        proof {
            assert(t.subrange(0, n as int) =~= t);
        }
        let rec = TransactionRecord {
            source_address: source,
            sequence_number,
            expiration_time: now + delivery_time_ms,
        };
        let pushed = kept.push(rec);
        self.broadcast_transaction_table = kept;
        pushed.is_ok()
    }

    /// Whether the broadcast transaction table would take the broadcast
    /// `(source, sequence_number)` at `now` (see [`spec_btt_accepts`]).
    pub fn btt_accepts(&self, source: NwkAddress, sequence_number: u8, now: u64) -> (r: bool)
        ensures
            r == crate::nwk::forwarding::spec_btt_accepts(self.broadcast_transaction_table@, source, sequence_number, now),
    {
        let ghost t = self.broadcast_transaction_table@;
        let n = self.broadcast_transaction_table.len();
        let mut live: usize = 0;
        let mut seen = false;
        let mut j: usize = 0;
        proof {
            assert(t.subrange(0, 0).filter(unexpired_at(now)) =~= Seq::<TransactionRecord>::empty());
        }
        while j < n
            invariant
                t == self.broadcast_transaction_table@,
                n == t.len(),
                j <= n,
                live == t.subrange(0, j as int).filter(unexpired_at(now)).len(),
                seen == exists|k: int|
                    0 <= k < j && t[k].source_address == source && t[k].sequence_number == sequence_number
                        && t[k].expiration_time >= now,
            decreases n - j,
        {
            let rec = self.broadcast_transaction_table.get(j);
            proof {
                crate::collections::lemma_filter_step(t, unexpired_at(now), j as int);
            }
            if rec.expiration_time >= now {
                live = live + 1;
                if rec.source_address == source && rec.sequence_number == sequence_number {
                    seen = true;
                }
            }
            j = j + 1;
        }
        proof {
            assert(t.subrange(0, n as int) =~= t);
        }
        !seen && live < 64
    }

    /// Whether the broadcast transaction table has a record of
    /// `(source, sequence_number)`, expired or not.
    pub fn btt_has(&self, source: NwkAddress, sequence_number: u8) -> (r: bool)
        ensures
            r == exists|j: int|
                0 <= j < self.broadcast_transaction_table@.len()
                    && self.broadcast_transaction_table@[j].source_address == source
                    && self.broadcast_transaction_table@[j].sequence_number == sequence_number,
    {
        let n = self.broadcast_transaction_table.len();
        let mut j: usize = 0;
        while j < n
            invariant
                n == self.broadcast_transaction_table@.len(),
                j <= n,
                forall|k: int|
                    0 <= k < j ==> !(self.broadcast_transaction_table@[k].source_address == source
                        && self.broadcast_transaction_table@[k].sequence_number == sequence_number),
            decreases n - j,
        {
            let t = self.broadcast_transaction_table.get(j);
            if t.source_address == source && t.sequence_number == sequence_number {
                return true;
            }
            j = j + 1;
        }
        false
    }

    /// A frame from an end device child that came through another router
    /// shows that the child changed parents: the first end device child
    /// with the frame's source address is dropped, unless the frame came
    /// straight from it or is a broadcast already in the broadcast
    /// transaction table.
    pub fn examine_end_devices_that_have_changed_router_parents(
        &mut self,
        header: &NwkHeader,
        mac_src_address: MacAddress,
    )
        ensures
            same_but_children(final(self), old(self)),
            spec_examined(&*old(self), *header, mac_src_address, final(self).neighbors.children@),
    {
        let src = header.source;
        let idx = match self.neighbors.find_by_short_addr_and_device_type(src, DeviceType::EndDevice) {
            Some(i) => i,
            None => return ,
        };
        if let MacAddress::Short(_, a) = mac_src_address {
            if a == src {
                return ;
            }
        }
        if src.is_broadcast() && self.btt_has(src, header.sequence_number) {
            return ;
        }
        let _ = self.neighbors.children.remove(idx);
        proof {
            let c = old(self).neighbors.children@;
            let p = has_short_and_type(src, DeviceType::EndDevice);
            assert(!none_matches(c, p)) by {
                assert(p(c[idx as int]));
            }
            assert forall|i: int| first_index(c, p, i) implies i == idx as int by {
                lemma_first_index_unique(c, p, i, idx as int);
            }
        }
    }

    /// A frame sent by an end device (the end device initiator flag set) is
    /// taken only from an end device child with its source address.
    pub fn handle_end_device_frame(&self, hdr: &NwkHeader) -> (r: bool)
        ensures
            r == (!hdr.control.end_device_initiator || !none_matches(
                self.neighbors.children@,
                has_short_and_type(hdr.source, DeviceType::EndDevice),
            )),
    {
        if hdr.control.end_device_initiator {
            let found = self.neighbors.find_by_short_addr_and_device_type(
                hdr.source,
                DeviceType::EndDevice,
            );
            proof {
                if let Some(i) = found {
                    assert(has_short_and_type(hdr.source, DeviceType::EndDevice)(
                        self.neighbors.children@[i as int],
                    ));
                }
            }
            found.is_some()
        } else {
            true
        }
    }

    /// Whether a data frame is for this router: as for an end device, or to
    /// all devices whose receiver is on when idle (if this one's is), or to
    /// the routers' broadcast address (0xfffc).
    pub fn frame_matches_self(&self, hdr: &NwkHeader) -> (r: bool)
        ensures
            r == (spec_matches_end_device(self.addr, self.group_table@, *hdr) || (hdr.destination.0
                == 0xfffd && self.rx_on_when_idle) || hdr.destination.0 == BROADCAST_ROUTERS),
    {
        if frame_matches_self_end_device(self.addr, &self.group_table, hdr) {
            return true;
        }
        let d = hdr.destination.0;
        if d == 0xfffd {
            self.rx_on_when_idle
        } else {
            d == BROADCAST_ROUTERS
        }
    }

    /// The first part of handling a data frame that passed the security
    /// check: a frame that [`RouterState::handle_end_device_frame`] refuses
    /// is dropped (`None`) and changes nothing; a frame with radius left is
    /// examined for a child that changed parents; then the frame is routed
    /// (see [`spec_data_frame_route`]). The caller makes the relay.
    pub fn handle_data_indication(&mut self, hdr: &NwkHeader, mac_src_address: MacAddress) -> (r: Option<
        DataFrameRoute,
    >)
        ensures
            r is None <==> !(!hdr.control.end_device_initiator || !none_matches(
                old(self).neighbors.children@,
                has_short_and_type(hdr.source, DeviceType::EndDevice),
            )),
            r is None ==> *final(self) == *old(self),
            r is Some ==> r == Some(spec_data_frame_route(old(self).addr, *hdr)),
            same_but_children(final(self), old(self)),
            hdr.radius == 0 ==> final(self).neighbors.children@ == old(self).neighbors.children@,
            hdr.radius > 0 && r is Some ==> spec_examined(
                &*old(self),
                *hdr,
                mac_src_address,
                final(self).neighbors.children@,
            ),
    {
        if !self.handle_end_device_frame(hdr) {
            return None;
        }
        if hdr.radius > 0 {
            self.examine_end_devices_that_have_changed_router_parents(hdr, mac_src_address);
        }
        Some(data_frame_route(self.addr, hdr))
    }

    /// Whether a data frame is handed to the next layer: when it is for this
    /// router (see [`RouterState::frame_matches_self`]) and either ends its
    /// journey here or its relay asked for it (`relay_indicates`).
    pub fn should_indicate_data_frame(&self, hdr: &NwkHeader, relay_indicates: bool) -> (r: bool)
        ensures
            r == ((spec_data_frame_route(self.addr, *hdr) == DataFrameRoute::Deliver || relay_indicates)
                && (spec_matches_end_device(self.addr, self.group_table@, *hdr) || (hdr.destination.0
                == 0xfffd && self.rx_on_when_idle) || hdr.destination.0 == BROADCAST_ROUTERS)),
    {
        let route = data_frame_route(self.addr, hdr);
        let indicate = match route {
            DataFrameRoute::Deliver => true,
            _ => relay_indicates,
        };
        indicate && self.frame_matches_self(hdr)
    }
}

/// A device to add as a child without association.
pub struct DirectJoinReq {
    pub ext_addr: ExtendedAddress,
    pub capability_information: MacCapabilities,
}

/// Why a device could not be added as a child.
#[derive(Clone, Copy, Debug, PartialEq, Eq, Structural)]
pub enum DirectJoinError {
    InvalidRequest,
    AlreadyPresent,
    NeighborTableFull,
}

/// The child a direct join adds under the address `a`.
pub open spec fn spec_direct_child(req: DirectJoinReq, a: NwkAddress, now: u64) -> NwkNeighbor {
    NwkNeighbor::spec_new(
        NewNwkNeighbour {
            ext_addr: req.ext_addr,
            nwk_addr: a,
            device_type: if req.capability_information.device_type == MacDeviceType::FullFunctionDevice {
                DeviceType::Coordinator
            } else {
                DeviceType::EndDevice
            },
            rx_on_when_idle: req.capability_information.rx_on_when_idle,
            relationship: NeighborRelationship::Child,
        },
        now,
    )
}

/// Where a data frame goes once it is taken.
#[derive(Clone, Copy, Debug, PartialEq, Eq, Structural)]
pub enum DataFrameRoute {
    /// It ends its journey here.
    Deliver,
    RelayMulticast,
    RelayBroadcast,
    RelayUnicast,
}

/// A frame with no radius left ends here; a multicast or broadcast one is
/// relayed as such; a unicast one to another device is relayed to it; a
/// unicast one to this device ends here.
pub open spec fn spec_data_frame_route(addr: NwkAddress, hdr: NwkHeader) -> DataFrameRoute {
    if hdr.radius == 0 {
        DataFrameRoute::Deliver
    } else if hdr.control.multicast {
        DataFrameRoute::RelayMulticast
    } else if hdr.destination.spec_is_broadcast() {
        DataFrameRoute::RelayBroadcast
    } else if hdr.destination != addr {
        DataFrameRoute::RelayUnicast
    } else {
        DataFrameRoute::Deliver
    }
}

pub fn data_frame_route(addr: NwkAddress, hdr: &NwkHeader) -> (r: DataFrameRoute)
    ensures
        r == spec_data_frame_route(addr, *hdr),
{
    if hdr.radius == 0 {
        DataFrameRoute::Deliver
    } else if hdr.control.multicast {
        DataFrameRoute::RelayMulticast
    } else if hdr.destination.is_broadcast() {
        DataFrameRoute::RelayBroadcast
    } else if hdr.destination.is_unicast() && hdr.destination.0 != addr.0 {
        DataFrameRoute::RelayUnicast
    } else {
        DataFrameRoute::Deliver
    }
}

/// The answer to a device that asked to associate.
#[derive(Clone, Copy, Debug, PartialEq, Eq, Structural)]
pub enum AssociateResponseStatus {
    Success(NwkAddress),
    PanAtCapacity,
}

/// What a child that joins (or joins again) is entered with.
pub open spec fn spec_new_child(
    ext: ExtendedAddress,
    nwk: NwkAddress,
    cap: MacCapabilities,
    relationship: NeighborRelationship,
    now: u64,
) -> NwkNeighbor {
    NwkNeighbor::spec_new(
        NewNwkNeighbour {
            ext_addr: ext,
            nwk_addr: nwk,
            device_type: DeviceType::spec_from_mac(cap.device_type),
            rx_on_when_idle: cap.rx_on_when_idle,
            relationship,
        },
        now,
    )
}

/// The children after a device with `ext` and the capabilities `cap` joins
/// again under `nwk`, and whether it found a place: expired children are
/// dropped; a child with that extended address and device type takes the
/// address; otherwise the other entries for `ext` are dropped and a new
/// child is added where there is room.
pub open spec fn spec_rejoin_children(
    c: Seq<NwkNeighbor>,
    ext: ExtendedAddress,
    nwk: NwkAddress,
    cap: MacCapabilities,
    now: u64,
) -> (Seq<NwkNeighbor>, bool) {
    let c1 = c.filter(alive_at(now));
    let p = has_ext_and_type(ext, DeviceType::spec_from_mac(cap.device_type));
    if exists|i: int| first_index(c1, p, i) {
        let i = choose|i: int| first_index(c1, p, i);
        (c1.update(i, NwkNeighbor { nwk_addr: nwk, ..c1[i] }), true)
    } else {
        let c2 = c1.filter(lacks_ext(ext));
        if c2.len() < 32 {
            (c2.push(spec_new_child(ext, nwk, cap, NeighborRelationship::Child, now)), true)
        } else {
            (c2, false)
        }
    }
}

/// The relationship a child that associates gets: a child where the network
/// has no security, an unauthenticated child otherwise.
pub open spec fn spec_associate_relationship(level: SecurityLevel) -> NeighborRelationship {
    match level {
        SecurityLevel::Unsecured => NeighborRelationship::Child,
        _ => NeighborRelationship::UnauthenticatedChild,
    }
}

/// Whether a path of relays holds `a`.
fn path_contains(path: &Vec<NwkAddress, 16>, a: NwkAddress) -> (r: bool)
    ensures
        r == path@.contains(a),
{
    let m = path.len();
    let mut k: usize = 0;
    while k < m
        invariant
            m == path@.len(),
            k <= m,
            forall|j: int| 0 <= j < k ==> path@[j] != a,
        decreases m - k,
    {
        if *path.get(k) == a {
            proof {
                assert(path@[k as int] == a);
            }
            return true;
        }
        k = k + 1;
    }
    false
}

impl RouterState {
    /// The extended address known for `nwk_addr`: this device's own, or the
    /// one in the address map, or that of the first child with the address.
    pub fn find_ext_addr(&self, nwk_addr: NwkAddress) -> (r: Option<ExtendedAddress>)
        ensures
            r == (if nwk_addr == self.addr {
                Some(self.ext_addr)
            } else if self.addr_map.map.spec_get(nwk_addr) is Some {
                self.addr_map.map.spec_get(nwk_addr)
            } else {
                match spec_find(self.neighbors.children@, has_short(nwk_addr)) {
                    Some(nb) => nb.ext_addr,
                    None => None,
                }
            }),
    {
        if nwk_addr == self.addr {
            return Some(self.ext_addr);
        }
        if let Some(e) = self.addr_map.find_ext_addr(&nwk_addr) {
            return Some(e);
        }
        let found = self.neighbors.find_by_short_addr(nwk_addr);
        proof {
            lemma_finds_spec_find(self.neighbors.children@, has_short(nwk_addr), found);
        }
        match found {
            Some(i) => self.neighbors.children.get(i).ext_addr,
            None => None,
        }
    }

    /// The short address known for `ext_addr`: this device's own, or the
    /// first one the address map holds it under, or that of the first child
    /// with it.
    pub fn find_nwk_addr(&self, ext_addr: ExtendedAddress) -> (r: Option<NwkAddress>)
        ensures
            r == (if ext_addr == self.ext_addr {
                Some(self.addr)
            } else if spec_find(self.addr_map.map.entries(), stores_ext(ext_addr)) is Some {
                Some(spec_find(self.addr_map.map.entries(), stores_ext(ext_addr))->Some_0.0)
            } else {
                match spec_find(self.neighbors.children@, has_ext(ext_addr)) {
                    Some(nb) => Some(nb.nwk_addr),
                    None => None,
                }
            }),
    {
        if ext_addr == self.ext_addr {
            return Some(self.addr);
        }
        if let Some(a) = self.addr_map.find_nwk_addr(&ext_addr) {
            return Some(a);
        }
        let found = self.neighbors.find_by_ext_addr(ext_addr);
        proof {
            lemma_finds_spec_find(self.neighbors.children@, has_ext(ext_addr), found);
        }
        match found {
            Some(i) => Some(self.neighbors.children.get(i).nwk_addr),
            None => None,
        }
    }

    /// Whether `nwk_addr` is taken by another device than `ext_addr`: by
    /// this device (when `check_self`), or by another extended address in
    /// the address map. An address the map does not hold counts as taken
    /// when the first child with it has the extended address `ext_addr`.
    pub fn is_address_conflict(&self, nwk_addr: &NwkAddress, ext_addr: &ExtendedAddress, check_self: bool) -> (r: bool)
        ensures
            r == (if check_self && self.addr == *nwk_addr {
                true
            } else if self.addr_map.map.spec_get(*nwk_addr) is Some {
                self.addr_map.map.spec_get(*nwk_addr) != Some(*ext_addr)
            } else {
                match spec_find(self.neighbors.children@, has_short(*nwk_addr)) {
                    Some(nb) => nb.ext_addr == Some(*ext_addr),
                    None => false,
                }
            }),
    {
        if check_self && self.addr == *nwk_addr {
            return true;
        }
        if let Some(a) = self.addr_map.find_ext_addr(nwk_addr) {
            return a != *ext_addr;
        }
        let found = self.neighbors.find_by_short_addr(*nwk_addr);
        proof {
            lemma_finds_spec_find(self.neighbors.children@, has_short(*nwk_addr), found);
        }
        match found {
            Some(i) => self.neighbors.children.get(i).ext_addr == Some(*ext_addr),
            None => false,
        }
    }

    /// Whether `a` is taken (see [`spec_address_in_use`]).
    pub fn address_in_use(&self, a: NwkAddress) -> (r: bool)
        ensures
            r == spec_address_in_use(self, a),
    {
        if self.addr == a {
            return true;
        }
        let n = self.route_table.routes.len();
        let mut i: usize = 0;
        while i < n
            invariant
                n == self.route_table.routes.entries().len(),
                i <= n,
                forall|j: int| 0 <= j < i ==> self.route_table.routes.entries()[j].1.next_hop_addr != a,
            decreases n - i,
        {
            if self.route_table.routes.entry_at(i).1.next_hop_addr == a {
                proof {
                    assert(self.route_table.routes.entries()[i as int].1.next_hop_addr == a);
                }
                return true;
            }
            i = i + 1;
        }
        let n = self.route_record_table.len();
        let mut i: usize = 0;
        while i < n
            invariant
                n == self.route_record_table@.len(),
                i <= n,
                forall|j: int|
                    0 <= j < i ==> !(self.route_record_table@[j].network_address == a
                        || self.route_record_table@[j].path@.contains(a)),
            decreases n - i,
        {
            let rec = self.route_record_table.get(i);
            if rec.network_address == a || path_contains(&rec.path, a) {
                proof {
                    assert(self.route_record_table@[i as int] == *rec);
                }
                return true;
            }
            i = i + 1;
        }
        let n = self.broadcast_transaction_table.len();
        let mut i: usize = 0;
        while i < n
            invariant
                n == self.broadcast_transaction_table@.len(),
                i <= n,
                forall|j: int| 0 <= j < i ==> self.broadcast_transaction_table@[j].source_address != a,
            decreases n - i,
        {
            if self.broadcast_transaction_table.get(i).source_address == a {
                proof {
                    assert(self.broadcast_transaction_table@[i as int].source_address == a);
                }
                return true;
            }
            i = i + 1;
        }
        let n = self.neighbors.children.len();
        let mut i: usize = 0;
        while i < n
            invariant
                n == self.neighbors.children@.len(),
                i <= n,
                forall|j: int| 0 <= j < i ==> self.neighbors.children@[j].nwk_addr != a,
            decreases n - i,
        {
            if self.neighbors.children.get(i).nwk_addr == a {
                proof {
                    assert(self.neighbors.children@[i as int].nwk_addr == a);
                }
                return true;
            }
            i = i + 1;
        }
        self.addr_map.map.contains_key(&a)
    }

    /// Draws short addresses for a new child (at least 1, below the first
    /// broadcast address) until one is free. Which address comes back
    /// depends on the draws from `rng`; after 2^64 - 1 draws that all found
    /// addresses in use, the addresses are tried in ascending order. So an
    /// address comes back exactly when one is free, and it is free.
    pub fn assign_child_address(&self, rng: &mut SmallRng) -> (r: Option<NwkAddress>)
        requires
            self.params.nwk_addr_alloc == AddrAllocMethod::Stochastic,
        ensures
            r matches Some(a) ==> 1 <= a.0 < MAX_NON_BROADCAST && !spec_address_in_use(self, a),
            r is None <==> forall|b: u16|
                1 <= b < MAX_NON_BROADCAST ==> #[trigger] spec_address_in_use(self, NwkAddress(b)),
    {
        let mut attempts: u64 = 0;
        while attempts < u64::MAX
            decreases u64::MAX - attempts,
        {
            let a = NwkAddress(random_u16_below(rng, 1, MAX_NON_BROADCAST));
            if !self.address_in_use(a) {
                return Some(a);
            }
            attempts = attempts + 1;
        }
        let mut v: u16 = 1;
        while v < MAX_NON_BROADCAST
            invariant
                1 <= v <= MAX_NON_BROADCAST,
                forall|b: u16| 1 <= b < v ==> #[trigger] spec_address_in_use(self, NwkAddress(b)),
            decreases MAX_NON_BROADCAST - v,
        {
            if !self.address_in_use(NwkAddress(v)) {
                return Some(NwkAddress(v));
            }
            v = v + 1;
        }
        None
    }

    /// Adds a device as a child without association: refused with
    /// `AlreadyPresent` (and nothing changed) when a child has its extended
    /// address; otherwise the expired children are dropped and the device
    /// goes last with a free short address, a full-function device as a
    /// coordinator and any other as an end device. `NeighborTableFull`
    /// comes back when the table has no room left, or (changing nothing)
    /// when no short address is free.
    pub fn direct_join(&mut self, req: DirectJoinReq, rng: &mut SmallRng, now: u64) -> (r: Result<(), DirectJoinError>)
        requires
            old(self).params.nwk_addr_alloc == AddrAllocMethod::Stochastic,
            now + spec_default_timeout().spec_duration_ms() <= u64::MAX,
        ensures
            same_but_children(final(self), old(self)),
            !none_matches(old(self).neighbors.children@, has_ext(req.ext_addr)) ==> r == Err::<(), DirectJoinError>(
                DirectJoinError::AlreadyPresent,
            ) && *final(self) == *old(self),
            r is Ok ==> exists|a: NwkAddress|
                1 <= a.0 < MAX_NON_BROADCAST && !spec_address_in_use(old(self), a) && final(self).neighbors.children@
                    == old(self).neighbors.children@.filter(alive_at(now)).push(spec_direct_child(req, a, now)),
            r == Err::<(), DirectJoinError>(DirectJoinError::NeighborTableFull) ==> (final(self).neighbors.children@
                == old(self).neighbors.children@ || (final(self).neighbors.children@
                == old(self).neighbors.children@.filter(alive_at(now)) && final(self).neighbors.children@.len()
                >= NEIGHBOR_TABLE_MAX_ENTRIES)),
            r is Err ==> r == Err::<(), DirectJoinError>(DirectJoinError::AlreadyPresent) || r == Err::<(), DirectJoinError>(
                DirectJoinError::NeighborTableFull,
            ),
    {
        let found = self.neighbors.find_by_ext_addr(req.ext_addr);
        proof {
            lemma_finds_spec_find(self.neighbors.children@, has_ext(req.ext_addr), found);
        }
        if found.is_some() {
            return Err(DirectJoinError::AlreadyPresent);
        }
        let nwk_addr = match self.assign_child_address(rng) {
            Some(a) => a,
            None => return Err(DirectJoinError::NeighborTableFull),
        };
        let device_type = match req.capability_information.device_type {
            MacDeviceType::FullFunctionDevice => DeviceType::Coordinator,
            MacDeviceType::ReducedFunctionDevice => DeviceType::EndDevice,
        };
        let child = NwkNeighbor::new(
            NewNwkNeighbour {
                ext_addr: req.ext_addr,
                nwk_addr,
                device_type,
                rx_on_when_idle: req.capability_information.rx_on_when_idle,
                relationship: NeighborRelationship::Child,
            },
            now,
        );
        self.neighbors.cleanup(now);
        match self.neighbors.children.push(child) {
            Ok(()) => Ok(()),
            Err(_) => Err(DirectJoinError::NeighborTableFull),
        }
    }

    /// Enters a device that joins again: see [`spec_rejoin_children`]. The
    /// result says whether it found a place.
    pub fn rejoin_child(&mut self, ext: ExtendedAddress, nwk: NwkAddress, cap: MacCapabilities, now: u64) -> (r: bool)
        requires
            now + spec_default_timeout().spec_duration_ms() <= u64::MAX,
        ensures
            same_but_children(final(self), old(self)),
            (final(self).neighbors.children@, r) == spec_rejoin_children(
                old(self).neighbors.children@,
                ext,
                nwk,
                cap,
                now,
            ),
    {
        self.neighbors.cleanup(now);
        let dt = DeviceType::from(cap.device_type);
        let found = self.neighbors.find_by_ext_addr_and_type(ext, dt);
        let ghost c1 = self.neighbors.children@;
        match found {
            Some(i) => {
                let mut nb = *self.neighbors.children.get(i);
                nb.nwk_addr = nwk;
                self.neighbors.children.set(i, nb);
                proof {
                    let p = has_ext_and_type(ext, dt);
                    assert(first_index(c1, p, i as int));
                    let j = choose|j: int| first_index(c1, p, j);
                    lemma_first_index_unique(c1, p, i as int, j);
                }
                true
            },
            None => {
                proof {
                    let p = has_ext_and_type(ext, dt);
                    assert forall|j: int| !first_index(c1, p, j) by {
                        if first_index(c1, p, j) {
                            assert(!p(c1[j]));
                        }
                    }
                }
                self.neighbors.remove_by_ext_addr(ext);
                let nb = NwkNeighbor::new(
                    NewNwkNeighbour {
                        ext_addr: ext,
                        nwk_addr: nwk,
                        device_type: dt,
                        rx_on_when_idle: cap.rx_on_when_idle,
                        relationship: NeighborRelationship::Child,
                    },
                    now,
                );
                self.neighbors.children.push(nb).is_ok()
            },
        }
    }

    /// Handles a rejoin request whose header is `header`, from a device with
    /// the capabilities `cap`. Without the sender's extended address the
    /// request is refused. Otherwise the device keeps its address, unless
    /// (where addresses are picked at random) it conflicts with another
    /// device's, in which case it gets a free one; it is then entered as
    /// [`RouterState::rejoin_child`] does, and the answer to send is success
    /// with the address, or that the network is at capacity. Where it needs
    /// a new address and none is free, the network is at capacity and
    /// nothing changes.
    pub fn handle_rejoin_request_command(
        &mut self,
        header: &NwkHeader,
        cap: &MacCapabilities,
        now: u64,
        rng: &mut SmallRng,
    ) -> (r: Result<RejoinResponse, NldeTransferError>)
        requires
            now + spec_default_timeout().spec_duration_ms() <= u64::MAX,
            old(self).params.nwk_addr_alloc == AddrAllocMethod::Distributed
                || old(self).params.nwk_addr_alloc == AddrAllocMethod::Stochastic,
        ensures
            header.source_ieee is None ==> r == Err::<RejoinResponse, NldeTransferError>(
                NldeTransferError::InvalidRequest,
            ) && *final(self) == *old(self),
            header.source_ieee is Some ==> r is Ok,
            header.source_ieee matches Some(ext) ==> (exists|a: NwkAddress|
                spec_rejoin_addr_ok(&*old(self), header.source, ext, a) && spec_rejoined(
                    &*old(self),
                    &*final(self),
                    ext,
                    a,
                    *cap,
                    now,
                    r->Ok_0,
                )) || ({
                    &&& r->Ok_0 == RejoinResponse::PanAtCapacity
                    &&& *final(self) == *old(self)
                    &&& old(self).params.nwk_addr_alloc == AddrAllocMethod::Stochastic
                    &&& spec_is_address_conflict(&*old(self), header.source, ext, true)
                    &&& forall|b: u16|
                        1 <= b < MAX_NON_BROADCAST ==> #[trigger] spec_address_in_use(
                            &*old(self),
                            NwkAddress(b),
                        )
                }),
    {
        let ext = match header.source_ieee {
            Some(e) => e,
            None => return Err(NldeTransferError::InvalidRequest),
        };
        let mut nwk_addr = header.source;
        let distributed = match self.params.nwk_addr_alloc {
            AddrAllocMethod::Distributed => true,
            _ => false,
        };
        if !distributed && self.is_address_conflict(&nwk_addr, &ext, true) {
            match self.assign_child_address(rng) {
                Some(a) => nwk_addr = a,
                None => return Ok(RejoinResponse::PanAtCapacity),
            }
        }
        if self.rejoin_child(ext, nwk_addr, *cap, now) {
            proof {
                assert(spec_rejoin_addr_ok(&*old(self), header.source, ext, nwk_addr));
                assert(spec_rejoined(&*old(self), &*self, ext, nwk_addr, *cap, now, RejoinResponse::Success(nwk_addr)));
            }
            Ok(RejoinResponse::Success(nwk_addr))
        } else {
            proof {
                assert(spec_rejoin_addr_ok(&*old(self), header.source, ext, nwk_addr));
                assert(spec_rejoined(&*old(self), &*self, ext, nwk_addr, *cap, now, RejoinResponse::PanAtCapacity));
            }
            Ok(RejoinResponse::PanAtCapacity)
        }
    }
}

/// The address a device that joins again may get: its own where addresses
/// are handed out by the tree or where it conflicts with no other device;
/// otherwise a free address below the first broadcast address.
pub open spec fn spec_rejoin_addr_ok(s: &RouterState, source: NwkAddress, ext: ExtendedAddress, a: NwkAddress) -> bool {
    let keeps = s.params.nwk_addr_alloc == AddrAllocMethod::Distributed
        || !spec_is_address_conflict(s, source, ext, true);
    &&& keeps ==> a == source
    &&& !keeps ==> 1 <= a.0 < MAX_NON_BROADCAST && !spec_address_in_use(s, a)
}

/// The state and the answer after a device with `ext` joins again under `a`
/// (see [`spec_rejoin_children`]).
pub open spec fn spec_rejoined(
    old_state: &RouterState,
    new_state: &RouterState,
    ext: ExtendedAddress,
    a: NwkAddress,
    cap: MacCapabilities,
    now: u64,
    resp: RejoinResponse,
) -> bool {
    let (c, ok) = spec_rejoin_children(old_state.neighbors.children@, ext, a, cap, now);
    &&& same_but_children(new_state, old_state)
    &&& new_state.neighbors.children@ == c
    &&& resp == (if ok {
        RejoinResponse::Success(a)
    } else {
        RejoinResponse::PanAtCapacity
    })
}

/// What [`RouterState::is_address_conflict`] answers.
pub open spec fn spec_is_address_conflict(
    s: &RouterState,
    nwk_addr: NwkAddress,
    ext_addr: ExtendedAddress,
    check_self: bool,
) -> bool {
    if check_self && s.addr == nwk_addr {
        true
    } else if s.addr_map.map.spec_get(nwk_addr) is Some {
        s.addr_map.map.spec_get(nwk_addr) != Some(ext_addr)
    } else {
        match spec_find(s.neighbors.children@, has_short(nwk_addr)) {
            Some(nb) => nb.ext_addr == Some(ext_addr),
            None => false,
        }
    }
}

impl RouterState {
    /// Handles a device with the extended address `ext` and the
    /// capabilities `cap` that asks to associate. Expired children are
    /// dropped. A child with that extended address and device type is
    /// answered with its address. Otherwise the other entries for `ext` are
    /// dropped and the device becomes a child under a free address, as a
    /// child where the network has no security and an unauthenticated child
    /// otherwise; where there is no room, or no free address, the answer is
    /// that the network is at capacity.
    pub fn handle_associate_indication(
        &mut self,
        ext: ExtendedAddress,
        cap: MacCapabilities,
        now: u64,
        rng: &mut SmallRng,
    ) -> (r: AssociateResponseStatus)
        requires
            now + spec_default_timeout().spec_duration_ms() <= u64::MAX,
            old(self).params.nwk_addr_alloc == AddrAllocMethod::Stochastic || exists|i: int|
                first_index(
                    old(self).neighbors.children@.filter(alive_at(now)),
                    has_ext_and_type(ext, DeviceType::spec_from_mac(cap.device_type)),
                    i,
                ),
        ensures
            same_but_children(final(self), old(self)),
            ({
                let c1 = old(self).neighbors.children@.filter(alive_at(now));
                let p = has_ext_and_type(ext, DeviceType::spec_from_mac(cap.device_type));
                let c2 = c1.filter(lacks_ext(ext));
                let rel = spec_associate_relationship(old(self).params.nwk_security_level);
                if exists|i: int| first_index(c1, p, i) {
                    final(self).neighbors.children@ == c1 && r == AssociateResponseStatus::Success(
                        c1[choose|i: int| first_index(c1, p, i)].nwk_addr,
                    )
                } else {
                    (exists|a: NwkAddress|
                        {
                            &&& 1 <= a.0 < MAX_NON_BROADCAST
                            &&& !spec_address_taken(&*old(self), c2, a)
                            &&& if c2.len() < 32 {
                                final(self).neighbors.children@ == c2.push(
                                    spec_new_child(ext, a, cap, rel, now),
                                ) && r == AssociateResponseStatus::Success(a)
                            } else {
                                final(self).neighbors.children@ == c2 && r
                                    == AssociateResponseStatus::PanAtCapacity
                            }
                        }) || ({
                        &&& final(self).neighbors.children@ == c2
                        &&& r == AssociateResponseStatus::PanAtCapacity
                        &&& forall|b: u16|
                            1 <= b < MAX_NON_BROADCAST ==> #[trigger] spec_address_taken(
                                &*old(self),
                                c2,
                                NwkAddress(b),
                            )
                    })
                }
            }),
    {
        self.neighbors.cleanup(now);
        let dt = DeviceType::from(cap.device_type);
        let ghost c1 = self.neighbors.children@;
        let ghost p = has_ext_and_type(ext, dt);
        let found = self.neighbors.find_by_ext_addr_and_type(ext, dt);
        proof {
            lemma_finds_spec_find(c1, p, found);
        }
        if let Some(i) = found {
            proof {
                assert(first_index(c1, p, i as int));
                let j = choose|j: int| first_index(c1, p, j);
                lemma_first_index_unique(c1, p, i as int, j);
            }
            return AssociateResponseStatus::Success(self.neighbors.children.get(i).nwk_addr);
        }
        proof {
            assert forall|j: int| !first_index(c1, p, j) by {
                if first_index(c1, p, j) {
                    assert(!p(c1[j]));
                }
            }
        }
        self.neighbors.remove_by_ext_addr(ext);
        let nwk_addr = match self.assign_child_address(rng) {
            Some(a) => a,
            None => {
                proof {
                    assert forall|b: u16| 1 <= b < MAX_NON_BROADCAST implies #[trigger] spec_address_taken(
                        &*old(self),
                        self.neighbors.children@,
                        NwkAddress(b),
                    ) by {
                        assert(spec_address_in_use(&*self, NwkAddress(b)));
                    }
                }
                return AssociateResponseStatus::PanAtCapacity;
            },
        };
        let relationship = match self.params.nwk_security_level {
            SecurityLevel::Unsecured => NeighborRelationship::Child,
            _ => NeighborRelationship::UnauthenticatedChild,
        };
        let nb = NwkNeighbor::new(
            NewNwkNeighbour {
                ext_addr: ext,
                nwk_addr,
                device_type: dt,
                rx_on_when_idle: cap.rx_on_when_idle,
                relationship,
            },
            now,
        );
        let ghost c2 = self.neighbors.children@;
        match self.neighbors.children.push(nb) {
            Ok(_) => {
                proof {
                    assert(!spec_address_taken(&*old(self), c2, nwk_addr));
                }
                AssociateResponseStatus::Success(nwk_addr)
            },
            Err(_) => {
                proof {
                    assert(!spec_address_taken(&*old(self), c2, nwk_addr));
                }
                AssociateResponseStatus::PanAtCapacity
            },
        }
    }
}

/// Two states that differ at most in the route table.
pub open spec fn same_but_routes(a: &RouterState, b: &RouterState) -> bool {
    &&& a.addr == b.addr
    &&& a.ext_addr == b.ext_addr
    &&& a.params == b.params
    &&& a.rx_on_when_idle == b.rx_on_when_idle
    &&& a.neighbors == b.neighbors
    &&& a.group_table == b.group_table
    &&& a.addr_map == b.addr_map
    &&& a.broadcast_transaction_table == b.broadcast_transaction_table
    &&& a.route_record_table == b.route_record_table
}

/// What a router does with a route request.
#[derive(Clone, Copy, Debug, PartialEq, Eq, Structural)]
pub enum RouteRequestAction {
    /// Nothing more.
    Drop,
    /// Pass the request on.
    Relay,
    /// Answer with a route reply of this path cost, then pass the request on.
    ReplyAndRelay { path_cost: u8 },
}

/// The outgoing cost of the link from the neighbor `mac_src`: that of the
/// first child with the address, or 0.
pub open spec fn spec_source_link_cost(c: Seq<NwkNeighbor>, mac_src: NwkAddress) -> u8 {
    match spec_find(c, has_short(mac_src)) {
        Some(nb) => nb.outgoing_cost.spec_value(),
        None => 0,
    }
}

/// Whether a route request counts the cost of the link it came over:
/// many-to-one requests, and all where links are symmetric.
pub open spec fn spec_uses_link_cost(s: &RouterState, cmd: RouteRequest) -> bool {
    cmd.dst_addr.spec_is_broadcast() || s.params.nwk_sym_link
}

/// The path cost a route request has here.
pub open spec fn spec_rreq_path_cost(s: &RouterState, mac_src: NwkAddress, cmd: RouteRequest) -> u8 {
    let link = spec_source_link_cost(s.neighbors.children@, mac_src);
    if spec_uses_link_cost(s, cmd) {
        if link > cmd.path_cost {
            link
        } else {
            cmd.path_cost
        }
    } else {
        cmd.path_cost
    }
}

/// Whether a route request is for this device or one of its children (or
/// for a group it belongs to).
pub open spec fn spec_rreq_for_self(s: &RouterState, cmd: RouteRequest) -> bool {
    ||| cmd.spec_is_unicast() && (s.addr == cmd.dst_addr || exists|i: int|
        0 <= i < s.neighbors.children@.len() && s.neighbors.children@[i].relationship
            == NeighborRelationship::Child && s.neighbors.children@[i].nwk_addr == cmd.dst_addr)
    ||| cmd.command_options.multicast && s.group_table@.contains(cmd.dst_addr)
}

/// A route request dropped before any table is looked at: a multicast or
/// many-to-one request without routing capacity, or one over a link whose
/// cost counts and is unknown.
pub open spec fn spec_rreq_dropped_early(s: &RouterState, mac_src: NwkAddress, cmd: RouteRequest) -> bool {
    ||| s.route_table.routes.entries().len() >= 32 && (cmd.command_options.multicast
        || cmd.dst_addr.spec_is_broadcast())
    ||| spec_uses_link_cost(s, cmd) && spec_source_link_cost(s.neighbors.children@, mac_src) == 0
}

/// Whether a route request needs a route and a discovery entry towards its
/// destination.
pub open spec fn spec_rreq_needs_discovery(s: &RouterState, cmd: RouteRequest) -> bool {
    (cmd.spec_is_unicast() || cmd.command_options.multicast) && !spec_rreq_for_self(s, cmd)
}

/// The route back to the originator after a request from `mac_src`.
pub open spec fn spec_reverse_route(prev: Option<RouteEntry>, mac_src: NwkAddress, cmd: RouteRequest) -> RouteEntry {
    let m2o = cmd.dst_addr.spec_is_broadcast();
    match prev {
        Some(e) => RouteEntry {
            status: RouteStatus::Active,
            next_hop_addr: mac_src,
            route_record_required: if e.next_hop_addr != mac_src {
                m2o
            } else {
                e.route_record_required
            },
            ..e
        },
        None => RouteEntry {
            status: RouteStatus::Active,
            no_route_cache: cmd.command_options.many_to_one
                == ManyToOne::ManyToOneRouteRecordNotSupported,
            many_to_one: m2o,
            route_record_required: m2o,
            is_group: false,
            next_hop_addr: mac_src,
        },
    }
}

/// The route towards the destination while it is being discovered.
pub open spec fn spec_forward_route(prev: Option<RouteEntry>, cmd: RouteRequest) -> RouteEntry {
    match prev {
        Some(e) => RouteEntry {
            status: if e.status == RouteStatus::Active || e.status == RouteStatus::ValidationUnderway {
                e.status
            } else {
                RouteStatus::DiscoveryUnderway
            },
            ..e
        },
        None => RouteEntry {
            status: RouteStatus::DiscoveryUnderway,
            no_route_cache: false,
            many_to_one: false,
            route_record_required: false,
            is_group: cmd.command_options.multicast,
            next_hop_addr: NwkAddress(0xffff),
        },
    }
}

/// The discovery entry after a request from `mac_src` at the cost `cost`:
/// a cheaper path replaces the one known.
pub open spec fn spec_discovery_entry(
    prev: Option<RouteDiscoveryEntry>,
    mac_src: NwkAddress,
    cost: u8,
    now: u64,
) -> RouteDiscoveryEntry {
    match prev {
        Some(d) => if cost >= d.forward_cost {
            d
        } else {
            RouteDiscoveryEntry { forward_cost: cost, sender_addr: mac_src, ..d }
        },
        None => RouteDiscoveryEntry {
            sender_addr: mac_src,
            forward_cost: cost,
            residual_cost: 0xff,
            expiration_time: (now + ROUTE_DISCOVERY_TIME_MS) as u64,
        },
    }
}

/// The key of the route back to the originator of a request.
pub open spec fn spec_reverse_key(header: NwkHeader) -> RouteEntryKey {
    RouteEntryKey { addr: header.source, is_group: false }
}

/// The key of the route towards the destination of a request.
pub open spec fn spec_forward_key(cmd: RouteRequest) -> RouteEntryKey {
    RouteEntryKey { addr: cmd.dst_addr, is_group: cmd.command_options.multicast }
}

/// The key of the discovery of a request.
pub open spec fn spec_discovery_key(header: NwkHeader, cmd: RouteRequest) -> DiscoveryKey {
    DiscoveryKey {
        route: spec_forward_key(cmd),
        route_request_id: cmd.route_request_id,
        originator: header.source,
    }
}

/// The routes after the reverse route is entered, where it is.
pub open spec fn spec_routes_after_reverse(
    s: &RouterState,
    mac_src: NwkAddress,
    header: NwkHeader,
    cmd: RouteRequest,
) -> Seq<(RouteEntryKey, RouteEntry)> {
    let e = s.route_table.routes.entries();
    if spec_uses_link_cost(s, cmd) {
        entries_put(
            e,
            spec_reverse_key(header),
            spec_reverse_route(entries_get(e, spec_reverse_key(header)), mac_src, cmd),
        )
    } else {
        e
    }
}

/// What a router does on a route request (`mac_src` sent it, `header` is
/// its NWK header): the action and the route table after it.
pub open spec fn spec_route_request_outcome(
    s: &RouterState,
    mac_src: NwkAddress,
    header: NwkHeader,
    cmd: RouteRequest,
    now: u64,
) -> (RouteRequestAction, Seq<(RouteEntryKey, RouteEntry)>, Seq<(DiscoveryKey, RouteDiscoveryEntry)>) {
    let routes = s.route_table.routes.entries();
    let discs = s.route_table.discoveries.entries();
    let path_cost = spec_rreq_path_cost(s, mac_src, cmd);
    if spec_rreq_dropped_early(s, mac_src, cmd) || routes.len() >= 32 {
        (RouteRequestAction::Drop, routes, discs)
    } else {
        let routes1 = spec_routes_after_reverse(s, mac_src, header, cmd);
        if spec_rreq_needs_discovery(s, cmd) {
            let fk = spec_forward_key(cmd);
            let dk = spec_discovery_key(header, cmd);
            if !(entries_has(routes1, fk) || routes1.len() < 32) {
                (RouteRequestAction::Drop, routes1, discs)
            } else {
                let routes2 = entries_put(routes1, fk, spec_forward_route(entries_get(routes1, fk), cmd));
                if !(entries_has(discs, dk) || discs.len() < 32) {
                    (RouteRequestAction::Drop, routes2, discs)
                } else {
                    let d = spec_discovery_entry(
                        entries_get(discs, dk),
                        mac_src,
                        (path_cost + 7) as u8,
                        now,
                    );
                    (RouteRequestAction::Relay, routes2, entries_put(discs, dk, d))
                }
            }
        } else if spec_rreq_for_self(s, cmd) && (cmd.spec_is_unicast()
            || cmd.command_options.multicast) {
            (RouteRequestAction::ReplyAndRelay { path_cost }, routes1, discs)
        } else {
            (RouteRequestAction::Relay, routes1, discs)
        }
    }
}

/// Whether the request goes as far as adding the routing cost to its path
/// cost: it is not dropped early, there is routing capacity, it needs a
/// discovery, and its route towards the destination was stored.
pub open spec fn spec_rreq_adds_cost(s: &RouterState, mac_src: NwkAddress, header: NwkHeader, cmd: RouteRequest) -> bool {
    let routes1 = spec_routes_after_reverse(s, mac_src, header, cmd);
    &&& !spec_rreq_dropped_early(s, mac_src, cmd)
    &&& s.route_table.routes.entries().len() < 32
    &&& spec_rreq_needs_discovery(s, cmd)
    &&& (entries_has(routes1, spec_forward_key(cmd)) || routes1.len() < 32)
}

/// The case in which this stack fails on a route request: no routing
/// capacity, addresses handed out by the tree, a unicast request, and the
/// sender among the children (the descendant test is then made at depth 0).
pub open spec fn spec_rreq_unsupported(s: &RouterState, mac_src: NwkAddress, cmd: RouteRequest) -> bool {
    &&& !spec_rreq_dropped_early(s, mac_src, cmd)
    &&& s.route_table.routes.entries().len() >= 32
    &&& s.params.nwk_addr_alloc == AddrAllocMethod::Distributed
    &&& cmd.spec_is_unicast()
    &&& spec_find(s.neighbors.children@, has_short(mac_src)) is Some
}

/// Storing under a key keeps the other keys, adds the key, and makes the
/// entries one longer only where the key was not there.
proof fn lemma_entries_put_keys<K, V>(e: Seq<(K, V)>, key: K, value: V, other: K)
    ensures
        entries_has(entries_put(e, key, value), other) <==> (entries_has(e, other) || other == key),
        entries_put(e, key, value).len() == if entries_has(e, key) {
            e.len()
        } else {
            e.len() + 1
        },
{
    let p = entries_put(e, key, value);
    if entries_has(e, key) {
        let c = choose|i: int| 0 <= i < e.len() && e[i].0 == key;
        if entries_has(e, other) {
            let i = choose|i: int| 0 <= i < e.len() && e[i].0 == other;
            if i == c {
                assert(p[c].0 == other);
            } else {
                assert(p[i].0 == other);
            }
        }
        if other == key {
            assert(p[c].0 == other);
        }
        if entries_has(p, other) {
            let i = choose|i: int| 0 <= i < p.len() && p[i].0 == other;
            if i != c {
                assert(e[i].0 == other);
            }
        }
    } else {
        if entries_has(e, other) {
            let i = choose|i: int| 0 <= i < e.len() && e[i].0 == other;
            assert(p[i].0 == other);
        }
        if other == key {
            assert(p[e.len() as int].0 == other);
        }
        if entries_has(p, other) {
            let i = choose|i: int| 0 <= i < p.len() && p[i].0 == other;
            if i < e.len() {
                assert(e[i].0 == other);
            }
        }
    }
}

impl RouterState {
    /// Whether this stack fails on the route request by adding the routing
    /// cost past a byte: it goes as far as that addition (see
    /// [`spec_rreq_adds_cost`]) with a path cost above 248.
    pub fn route_request_cost_overflows(&self, mac_src_addr: NwkAddress, header: &NwkHeader, cmd: &RouteRequest) -> (r: bool)
        ensures
            r == (spec_rreq_adds_cost(self, mac_src_addr, *header, *cmd) && spec_rreq_path_cost(self, mac_src_addr, *cmd)
                + 7 > u8::MAX),
    {
        let full = self.route_table.is_full();
        let uses_link = cmd.is_many_to_one() || self.params.nwk_sym_link;
        let link = self.source_link_cost(mac_src_addr);
        if full && (cmd.is_multicast() || cmd.is_many_to_one()) {
            return false;
        }
        if uses_link && link == 0 {
            return false;
        }
        if full {
            return false;
        }
        let path_cost = if uses_link && link > cmd.path_cost {
            link
        } else {
            cmd.path_cost
        };
        if path_cost <= 248 {
            return false;
        }
        let needs = (cmd.is_unicast() || cmd.is_multicast()) && !self.route_request_for_self(cmd);
        if !needs {
            return false;
        }
        let fk = RouteEntryKey { addr: cmd.dst_addr, is_group: cmd.is_multicast() };
        let rk = RouteEntryKey { addr: header.source, is_group: false };
        let has_fk = self.route_table.routes.contains_key(&fk);
        let n = self.route_table.routes.len();
        proof {
            let e = self.route_table.routes.entries();
            lemma_entries_put_keys(
                e,
                rk,
                spec_reverse_route(entries_get(e, rk), mac_src_addr, *cmd),
                fk,
            );
            assert(has_fk == entries_has(e, fk));
        }
        if uses_link {
            let has_rk = self.route_table.routes.contains_key(&rk);
            proof {
                assert(has_rk == entries_has(self.route_table.routes.entries(), rk));
            }
            let len1 = if has_rk {
                n
            } else {
                n + 1
            };
            has_fk || rk == fk || len1 < ROUTE_TABLE_SIZE
        } else {
            has_fk || n < ROUTE_TABLE_SIZE
        }
    }
}

impl RouterState {
    /// Whether the route request is for this device, one of its children or
    /// one of its groups (see [`spec_rreq_for_self`]).
    fn route_request_for_self(&self, cmd: &RouteRequest) -> (r: bool)
        ensures
            r == spec_rreq_for_self(self, *cmd),
    {
        let dst = cmd.dst_addr;
        if cmd.is_unicast() {
            if self.addr == dst {
                return true;
            }
            let n = self.neighbors.children.len();
            let mut i: usize = 0;
            while i < n
                invariant
                    n == self.neighbors.children@.len(),
                    i <= n,
                    dst == cmd.dst_addr,
                    cmd.spec_is_unicast(),
                    forall|j: int|
                        0 <= j < i ==> !(self.neighbors.children@[j].relationship
                            == NeighborRelationship::Child && self.neighbors.children@[j].nwk_addr
                            == dst),
                decreases n - i,
            {
                let nb = self.neighbors.children.get(i);
                if nb.is_child() && nb.nwk_addr == dst {
                    proof {
                        assert(self.neighbors.children@[i as int] == *nb);
                    }
                    return true;
                }
                i = i + 1;
            }
        }
        if cmd.is_multicast() {
            let n = self.group_table.len();
            let mut i: usize = 0;
            while i < n
                invariant
                    n == self.group_table@.len(),
                    i <= n,
                    dst == cmd.dst_addr,
                    cmd.command_options.multicast,
                    forall|j: int| 0 <= j < i ==> self.group_table@[j] != dst,
                decreases n - i,
            {
                if *self.group_table.get(i) == dst {
                    proof {
                        assert(self.group_table@[i as int] == dst);
                    }
                    return true;
                }
                i = i + 1;
            }
        }
        false
    }

    /// The outgoing cost of the link from `mac_src` (see
    /// [`spec_source_link_cost`]).
    fn source_link_cost(&self, mac_src: NwkAddress) -> (r: u8)
        ensures
            r == spec_source_link_cost(self.neighbors.children@, mac_src),
    {
        let found = self.neighbors.find_by_short_addr(mac_src);
        proof {
            lemma_finds_spec_find(self.neighbors.children@, has_short(mac_src), found);
        }
        match found {
            Some(i) => self.neighbors.children.get(i).outgoing_cost.value(),
            None => 0,
        }
    }

    /// Handles a route request that `mac_src_addr` sent, with the NWK header
    /// `header`: see [`spec_route_request_outcome`] for the action and the
    /// route table after it; nothing else changes.
    pub fn handle_route_request_command(
        &mut self,
        mac_src_addr: NwkAddress,
        header: &NwkHeader,
        cmd: &RouteRequest,
        now: u64,
    ) -> (r: RouteRequestAction)
        requires
            !spec_rreq_unsupported(&*old(self), mac_src_addr, *cmd),
            now + ROUTE_DISCOVERY_TIME_MS <= u64::MAX,
            spec_rreq_adds_cost(&*old(self), mac_src_addr, *header, *cmd) ==> spec_rreq_path_cost(
                &*old(self),
                mac_src_addr,
                *cmd,
            ) + 7 <= u8::MAX,
        ensures
            same_but_routes(final(self), old(self)),
            ({
                let (a, routes, discs) = spec_route_request_outcome(
                    &*old(self),
                    mac_src_addr,
                    *header,
                    *cmd,
                    now,
                );
                &&& r == a
                &&& final(self).route_table.routes.entries() == routes
                &&& final(self).route_table.discoveries.entries() == discs
            }),
    {
        let full = self.route_table.is_full();
        let many_to_one = cmd.is_many_to_one();
        if full && (cmd.is_multicast() || many_to_one) {
            return RouteRequestAction::Drop;
        }
        let uses_link = many_to_one || self.params.nwk_sym_link;
        let path_cost = if uses_link {
            let link = self.source_link_cost(mac_src_addr);
            if link == 0 {
                return RouteRequestAction::Drop;
            }
            if link > cmd.path_cost {
                link
            } else {
                cmd.path_cost
            }
        } else {
            cmd.path_cost
        };
        let for_self = self.route_request_for_self(cmd);
        if full {
            return RouteRequestAction::Drop;
        }
        if uses_link {
            let key = RouteEntryKey { addr: header.source, is_group: false };
            let entry = match self.route_table.routes.get(&key) {
                Some(e) => RouteEntry {
                    status: RouteStatus::Active,
                    next_hop_addr: mac_src_addr,
                    route_record_required: if e.next_hop_addr != mac_src_addr {
                        many_to_one
                    } else {
                        e.route_record_required
                    },
                    ..*e
                },
                None => RouteEntry {
                    status: RouteStatus::Active,
                    no_route_cache: cmd.no_route_cache(),
                    many_to_one,
                    route_record_required: many_to_one,
                    is_group: false,
                    next_hop_addr: mac_src_addr,
                },
            };
            let _ = self.route_table.routes.insert(key, entry);
        }
        let needs = (cmd.is_unicast() || cmd.is_multicast()) && !for_self;
        if needs {
            let key = RouteEntryKey { addr: cmd.dst_addr, is_group: cmd.is_multicast() };
            let entry = match self.route_table.routes.get(&key) {
                Some(e) => RouteEntry {
                    status: match e.status {
                        RouteStatus::Active => RouteStatus::Active,
                        RouteStatus::ValidationUnderway => RouteStatus::ValidationUnderway,
                        _ => RouteStatus::DiscoveryUnderway,
                    },
                    ..*e
                },
                None => RouteEntry {
                    status: RouteStatus::DiscoveryUnderway,
                    no_route_cache: false,
                    many_to_one: false,
                    route_record_required: false,
                    is_group: cmd.is_multicast(),
                    next_hop_addr: NwkAddress(0xffff),
                },
            };
            if self.route_table.routes.insert(key, entry).is_err() {
                return RouteRequestAction::Drop;
            }
            let new_cost = path_cost + compute_routing_cost().value();
            let dkey = DiscoveryKey {
                route: key,
                route_request_id: cmd.route_request_id,
                originator: header.source,
            };
            let d = match self.route_table.discoveries.get(&dkey) {
                Some(d) => if new_cost >= d.forward_cost {
                    *d
                } else {
                    RouteDiscoveryEntry { forward_cost: new_cost, sender_addr: mac_src_addr, ..*d }
                },
                None => RouteDiscoveryEntry {
                    sender_addr: mac_src_addr,
                    forward_cost: new_cost,
                    residual_cost: 0xff,
                    expiration_time: now + ROUTE_DISCOVERY_TIME_MS,
                },
            };
            if self.route_table.discoveries.insert(dkey, d).is_err() {
                return RouteRequestAction::Drop;
            }
            RouteRequestAction::Relay
        } else if for_self && (cmd.is_unicast() || cmd.is_multicast()) {
            RouteRequestAction::ReplyAndRelay { path_cost }
        } else {
            RouteRequestAction::Relay
        }
    }
}

/// The key of the route a route reply is about.
pub open spec fn spec_reply_key(cmd: RouteReply) -> RouteEntryKey {
    RouteEntryKey { addr: cmd.responder_address, is_group: cmd.command_options.multicast }
}

/// The key of the discovery a route reply answers.
pub open spec fn spec_reply_discovery_key(cmd: RouteReply) -> DiscoveryKey {
    DiscoveryKey {
        route: spec_reply_key(cmd),
        route_request_id: cmd.route_request_id,
        originator: cmd.originator_address,
    }
}

/// Whether a route reply is taken up: the table has room or tree routing
/// is on, and it knows the route and the discovery the reply answers.
pub open spec fn spec_reply_taken(s: &RouterState, cmd: RouteReply) -> bool {
    &&& (s.route_table.routes.entries().len() < 32 || s.params.nwk_use_tree_routing)
    &&& entries_has(s.route_table.routes.entries(), spec_reply_key(cmd))
    &&& entries_has(s.route_table.discoveries.entries(), spec_reply_discovery_key(cmd))
}

/// Whether a route reply may move the route's next hop: always when the
/// route was asked for by another device; for this device's own request,
/// while the route is being discovered, validated or is active.
pub open spec fn spec_reply_may_update(s: &RouterState, route: RouteEntry, cmd: RouteReply) -> bool {
    cmd.originator_address != s.addr || route.status == RouteStatus::DiscoveryUnderway || route.status
        == RouteStatus::Active || route.status == RouteStatus::ValidationUnderway
}

/// The route and the discovery after a route reply that `mac_src` sent
/// and that is taken up (see [`spec_reply_taken`]).
pub open spec fn spec_after_reply(
    s: &RouterState,
    mac_src: NwkAddress,
    cmd: RouteReply,
    now: u64,
) -> (RouteEntry, RouteDiscoveryEntry) {
    let route = entries_get(s.route_table.routes.entries(), spec_reply_key(cmd))->Some_0;
    let d = entries_get(s.route_table.discoveries.entries(), spec_reply_discovery_key(cmd))->Some_0;
    let status = if cmd.originator_address == s.addr && route.status == RouteStatus::DiscoveryUnderway {
        if route.is_group {
            RouteStatus::ValidationUnderway
        } else {
            RouteStatus::Active
        }
    } else {
        route.status
    };
    let improves = spec_reply_may_update(s, route, cmd) && d.residual_cost > cmd.path_cost;
    let d2 = if improves {
        RouteDiscoveryEntry {
            residual_cost: cmd.path_cost,
            expiration_time: if route.next_hop_addr != mac_src {
                (now + if route.is_group {
                    WAIT_BEFORE_VALIDATION_MS
                } else {
                    ROUTE_DISCOVERY_TIME_MS
                }) as u64
            } else {
                d.expiration_time
            },
            ..d
        }
    } else {
        d
    };
    let route2 = RouteEntry {
        status,
        next_hop_addr: if improves {
            mac_src
        } else {
            route.next_hop_addr
        },
        ..route
    };
    (route2, d2)
}

impl RouterState {
    /// Handles a route reply that `mac_src_addr` sent. One that is not
    /// taken up (see [`spec_reply_taken`]) changes nothing. Otherwise the
    /// route and its discovery become what [`spec_after_reply`] says, and
    /// Whether the route reply is taken (see [`spec_reply_taken`]): there is
    /// routing capacity or tree routing, and the route and discovery it
    /// answers are known.
    pub fn route_reply_taken(&self, cmd: &RouteReply) -> (r: bool)
        ensures
            r == spec_reply_taken(self, *cmd),
    {
        if self.route_table.is_full() && !self.params.nwk_use_tree_routing {
            return false;
        }
        let key = RouteEntryKey { addr: cmd.responder_address, is_group: cmd.command_options.multicast };
        let dkey = DiscoveryKey { route: key, route_request_id: cmd.route_request_id, originator: cmd.originator_address };
        let has_route = self.route_table.routes.contains_key(&key);
        let has_discovery = self.route_table.discoveries.contains_key(&dkey);
        proof {
            assert(has_route == entries_has(self.route_table.routes.entries(), spec_reply_key(*cmd)));
            assert(has_discovery == entries_has(self.route_table.discoveries.entries(), spec_reply_discovery_key(*cmd)));
        }
        has_route && has_discovery
    }

    /// the reply's path cost grows by the cost of the link it came over.
    pub fn handle_route_reply_command(&mut self, mac_src_addr: NwkAddress, cmd: &mut RouteReply, now: u64)
        requires
            now + ROUTE_DISCOVERY_TIME_MS <= u64::MAX,
            spec_reply_taken(&*old(self), *old(cmd)) ==> old(cmd).path_cost + 7 <= u8::MAX,
        ensures
            same_but_routes(final(self), old(self)),
            !spec_reply_taken(&*old(self), *old(cmd)) ==> *final(cmd) == *old(cmd)
                && final(self).route_table.routes.entries() == old(self).route_table.routes.entries()
                && final(self).route_table.discoveries.entries()
                == old(self).route_table.discoveries.entries(),
            spec_reply_taken(&*old(self), *old(cmd)) ==> {
                let (route, d) = spec_after_reply(&*old(self), mac_src_addr, *old(cmd), now);
                &&& *final(cmd) == RouteReply { path_cost: (old(cmd).path_cost + 7) as u8, ..*old(cmd) }
                &&& final(self).route_table.routes.entries() == entries_put(
                    old(self).route_table.routes.entries(),
                    spec_reply_key(*old(cmd)),
                    route,
                )
                &&& final(self).route_table.discoveries.entries() == entries_put(
                    old(self).route_table.discoveries.entries(),
                    spec_reply_discovery_key(*old(cmd)),
                    d,
                )
            },
    {
        if self.route_table.is_full() && !self.params.nwk_use_tree_routing {
            return ;
        }
        let key = RouteEntryKey { addr: cmd.responder_address, is_group: cmd.command_options.multicast };
        let dkey = DiscoveryKey {
            route: key,
            route_request_id: cmd.route_request_id,
            originator: cmd.originator_address,
        };
        let route = match self.route_table.routes.get(&key) {
            Some(r) => *r,
            None => return ,
        };
        let d = match self.route_table.discoveries.get(&dkey) {
            Some(d) => *d,
            None => return ,
        };
        let own = cmd.originator_address == self.addr;
        let status = if own && route.status == RouteStatus::DiscoveryUnderway {
            if route.is_group {
                RouteStatus::ValidationUnderway
            } else {
                RouteStatus::Active
            }
        } else {
            route.status
        };
        let may_update = !own || route.status == RouteStatus::DiscoveryUnderway || route.status
            == RouteStatus::Active || route.status == RouteStatus::ValidationUnderway;
        let improves = may_update && d.residual_cost > cmd.path_cost;
        let d2 = if improves {
            RouteDiscoveryEntry {
                residual_cost: cmd.path_cost,
                expiration_time: if route.next_hop_addr != mac_src_addr {
                    now + if route.is_group {
                        WAIT_BEFORE_VALIDATION_MS
                    } else {
                        ROUTE_DISCOVERY_TIME_MS
                    }
                } else {
                    d.expiration_time
                },
                ..d
            }
        } else {
            d
        };
        let route2 = RouteEntry {
            status,
            next_hop_addr: if improves {
                mac_src_addr
            } else {
                route.next_hop_addr
            },
            ..route
        };
        let _ = self.route_table.routes.insert(key, route2);
        let _ = self.route_table.discoveries.insert(dkey, d2);
        cmd.path_cost = cmd.path_cost + compute_routing_cost().value();
    }
}

/// The route entry a discovery of `dst_addr` leaves: an active route, or
/// one whose validation is under way, keeps its status; any other entry is
/// marked under discovery; a new entry is under discovery with no next hop.
pub open spec fn spec_discovery_route(old_entry: Option<RouteEntry>, no_route_cache: bool) -> RouteEntry {
    match old_entry {
        Some(e) => RouteEntry {
            status: if e.status == RouteStatus::Active || e.status == RouteStatus::ValidationUnderway {
                e.status
            } else {
                RouteStatus::DiscoveryUnderway
            },
            ..e
        },
        None => RouteEntry {
            status: RouteStatus::DiscoveryUnderway,
            no_route_cache,
            many_to_one: false,
            route_record_required: false,
            is_group: false,
            next_hop_addr: NwkAddress(0xffff),
        },
    }
}

impl RouterState {
    /// Starts the discovery of a route to `dst_addr` with the request
    /// identifier `route_request_id`: the route entry is made or marked
    /// (see [`spec_discovery_route`]), then a discovery entry of this device
    /// is made, expiring after the route discovery time. Either table being
    /// full ends it with no routing capacity. What comes back is the request
    /// to broadcast.
    pub fn initiate_unicast_discovery(
        &mut self,
        dst_addr: NwkAddress,
        no_route_cache: bool,
        route_request_id: u8,
        now: u64,
    ) -> (r: Result<RouteRequestCmd, RouteError>)
        requires
            now + ROUTE_DISCOVERY_TIME_MS <= u64::MAX,
        ensures
            same_but_routes(final(self), old(self)),
            ({
                let key = RouteEntryKey { addr: dst_addr, is_group: false };
                let dkey = DiscoveryKey { route: key, route_request_id, originator: old(self).addr };
                let routes = old(self).route_table.routes;
                let discoveries = old(self).route_table.discoveries;
                let e = spec_discovery_route(routes.spec_get(key), no_route_cache);
                let d = RouteDiscoveryEntry {
                    sender_addr: old(self).addr,
                    forward_cost: 0,
                    residual_cost: 0xff,
                    expiration_time: (now + ROUTE_DISCOVERY_TIME_MS) as u64,
                };
                if !(routes.spec_has(key) || routes.entries().len() < ROUTE_TABLE_SIZE) {
                    r == Err::<RouteRequestCmd, RouteError>(RouteError::RouteError(NetworkStatusCode::NoRoutingCapacity))
                        && final(self).route_table.routes.entries() == routes.entries()
                        && final(self).route_table.discoveries.entries() == discoveries.entries()
                } else {
                    &&& final(self).route_table.routes.entries() == routes.spec_put(key, e)
                    &&& if discoveries.spec_has(dkey) || discoveries.entries().len() < ROUTE_DISCOVERY_TABLE_SIZE {
                        &&& final(self).route_table.discoveries.entries() == discoveries.spec_put(dkey, d)
                        &&& r == Ok::<RouteRequestCmd, RouteError>(
                            RouteRequestCmd {
                                dst_addr: RouteDiscoveryRequestAddress::UnicastOrBroadcast(dst_addr),
                                ieee_destination: None,
                                route_request_id,
                                path_cost: 0,
                            },
                        )
                    } else {
                        &&& final(self).route_table.discoveries.entries() == discoveries.entries()
                        &&& r == Err::<RouteRequestCmd, RouteError>(
                            RouteError::RouteError(NetworkStatusCode::NoRoutingCapacity),
                        )
                    }
                }
            }),
    {
        let key = RouteEntryKey { addr: dst_addr, is_group: false };
        let entry = match self.route_table.routes.get(&key) {
            Some(e) => RouteEntry {
                status: match e.status {
                    RouteStatus::Active => RouteStatus::Active,
                    RouteStatus::ValidationUnderway => RouteStatus::ValidationUnderway,
                    _ => RouteStatus::DiscoveryUnderway,
                },
                ..*e
            },
            None => RouteEntry {
                status: RouteStatus::DiscoveryUnderway,
                no_route_cache,
                many_to_one: false,
                route_record_required: false,
                is_group: false,
                next_hop_addr: NwkAddress(0xffff),
            },
        };
        if self.route_table.routes.insert(key, entry).is_err() {
            return Err(RouteError::RouteError(NetworkStatusCode::NoRoutingCapacity));
        }
        let dkey = DiscoveryKey { route: key, route_request_id, originator: self.addr };
        let d = RouteDiscoveryEntry {
            sender_addr: self.addr,
            forward_cost: 0,
            residual_cost: 0xff,
            expiration_time: now + ROUTE_DISCOVERY_TIME_MS,
        };
        if self.route_table.discoveries.insert(dkey, d).is_err() {
            return Err(RouteError::RouteError(NetworkStatusCode::NoRoutingCapacity));
        }
        Ok(
            RouteRequestCmd {
                dst_addr: RouteDiscoveryRequestAddress::UnicastOrBroadcast(dst_addr),
                ieee_destination: None,
                route_request_id,
                path_cost: 0,
            },
        )
    }
}

/// Whether a frame shows that another device uses its source address: its
/// extended source address differs from the one stored for that address.
/// A source seen for the first time is stored, where the address map has
/// room; a frame without an extended source address shows nothing.
pub fn detect_addr_conflict_self(addr_map: &mut AddressMap, hdr: &NwkHeader) -> (r: bool)
    ensures
        match hdr.source_ieee {
            None => !r && final(addr_map).map.entries() == old(addr_map).map.entries(),
            Some(e) => match old(addr_map).map.spec_get(hdr.source) {
                Some(cur) => r == (cur != e) && final(addr_map).map.entries() == old(addr_map).map.entries(),
                None => !r && final(addr_map).map.entries() == spec_addr_map_after(*old(addr_map), hdr.source, e),
            },
        },
{
    let src_ieee = match hdr.source_ieee {
        Some(e) => e,
        None => return false,
    };
    match addr_map.find_ext_addr(&hdr.source) {
        Some(cur) => cur != src_ieee,
        None => {
            addr_map.insert(hdr.source, src_ieee);
            false
        },
    }
}

impl RouterState {
    /// Whether a frame shows an address conflict: as
    /// [`detect_addr_conflict_self`] finds, or, for a frame with an extended
    /// source address, where a child has its short source address.
    pub fn handle_addr_conflict(&mut self, hdr: &NwkHeader) -> (r: bool)
        ensures
            ({
                let stored = old(self).addr_map.map.spec_get(hdr.source);
                let shows_self = match (hdr.source_ieee, stored) {
                    (Some(e), Some(cur)) => cur != e,
                    _ => false,
                };
                r == (shows_self || (hdr.source_ieee is Some && !none_matches(
                    old(self).neighbors.children@,
                    has_short(hdr.source),
                )))
            }),
            final(self).addr_map.map.entries() == match (hdr.source_ieee, old(self).addr_map.map.spec_get(hdr.source)) {
                (Some(e), None) => spec_addr_map_after(old(self).addr_map, hdr.source, e),
                _ => old(self).addr_map.map.entries(),
            },
            final(self).neighbors == old(self).neighbors,
            final(self).route_table == old(self).route_table,
            final(self).broadcast_transaction_table == old(self).broadcast_transaction_table,
            final(self).addr == old(self).addr,
    {
        if detect_addr_conflict_self(&mut self.addr_map, hdr) {
            return true;
        }
        if hdr.source_ieee.is_none() {
            return false;
        }
        let found = self.neighbors.find_by_short_addr(hdr.source);
        proof {
            if let Some(i) = found {
                assert(has_short(hdr.source)(self.neighbors.children@[i as int]));
            }
        }
        found.is_some()
    }
}

/// The route reply a router sends for a route request addressed to it or
/// to one of its children: the request's identifier and originator, the
/// requested device as the responder, with the extended address of the
/// first child with its short address where there is one, and the path
/// cost plus the cost of the link back.
pub fn route_reply_command(
    children: &NeighborTable,
    header: &NwkHeader,
    cmd: &RouteRequest,
    path_cost: u8,
) -> (r: RouteReply)
    requires
        path_cost + 7 <= 255,
        match spec_find(children.children@, has_short(cmd.dst_addr)) {
            Some(nb) => nb.ext_addr is Some,
            None => true,
        },
    ensures
        ({
            let responder = match spec_find(children.children@, has_short(cmd.dst_addr)) {
                Some(nb) => nb.ext_addr,
                None => None,
            };
            r == RouteReply {
                command_options: RouteReplyOptions {
                    originator_ieee: header.source_ieee is Some,
                    responder_ieee: responder is Some,
                    multicast: false,
                },
                route_request_id: cmd.route_request_id,
                originator_address: header.source,
                responder_address: cmd.dst_addr,
                path_cost: (path_cost + 7) as u8,
                originator_ieee_address: header.source_ieee,
                responder_ieee_address: responder,
            }
        }),
{
    let found = children.find_by_short_addr(cmd.dst_addr);
    proof {
        lemma_finds_spec_find(children.children@, has_short(cmd.dst_addr), found);
    }
    let responder = match found {
        Some(i) => children.children.get(i).ext_addr,
        None => None,
    };
    RouteReply {
        command_options: RouteReplyOptions {
            originator_ieee: header.source_ieee.is_some(),
            responder_ieee: responder.is_some(),
            multicast: false,
        },
        route_request_id: cmd.route_request_id,
        originator_address: header.source,
        responder_address: cmd.dst_addr,
        path_cost: path_cost + compute_routing_cost().value(),
        originator_ieee_address: header.source_ieee,
        responder_ieee_address: responder,
    }
}

/// Children in ascending order of short address.
pub open spec fn sorted_by_address(s: Seq<NwkNeighbor>) -> bool {
    forall|i: int, j: int| 0 <= i <= j < s.len() ==> s[i].nwk_addr.0 <= s[j].nwk_addr.0
}

/// The neighbors of `v` in ascending order of short address.
#[verifier::rlimit(40)]
pub fn sort_by_address(v: &Vec<NwkNeighbor, 32>) -> (r: Vec<NwkNeighbor, 32>)
    ensures
        r@.to_multiset() == v@.to_multiset(),
        sorted_by_address(r@),
{
    broadcast use vstd::seq_lib::to_multiset_insert, vstd::seq_lib::to_multiset_build;

    let n = v.len();
    let mut out: std::vec::Vec<NwkNeighbor> = std::vec::Vec::new();
    let mut k: usize = 0;
    proof {
        assert(v@.subrange(0, 0) =~= Seq::<NwkNeighbor>::empty());
    }
    while k < n
        invariant
            n == v@.len(),
            n <= 32,
            k <= n,
            out@.len() == k,
            out@.to_multiset() == v@.subrange(0, k as int).to_multiset(),
            sorted_by_address(out@),
        decreases n - k,
    {
        let x = *v.get(k);
        let mut p: usize = 0;
        while p < out.len() && out[p].nwk_addr.0 <= x.nwk_addr.0
            invariant
                p <= out@.len(),
                forall|j: int| 0 <= j < p ==> out@[j].nwk_addr.0 <= x.nwk_addr.0,
            decreases out@.len() - p,
        {
            p = p + 1;
        }
        let ghost before = out@;
        out.insert(p, x);
        proof {
            assert(out@ == before.insert(p as int, x));
            before.insert_ensures(p as int, x);
            vstd::seq_lib::to_multiset_insert(before, p as int, x);
            vstd::seq_lib::to_multiset_build(v@.subrange(0, k as int), x);
            assert forall|i: int, j: int| 0 <= i <= j < out@.len() implies out@[i].nwk_addr.0
                <= out@[j].nwk_addr.0 by {
                if i < p && j < p {
                } else if i < p && j == p {
                } else if i < p && j > p {
                    assert(out@[j] == before[j - 1]);
                } else if i == p && j == p {
                } else if i == p && j > p {
                    assert(out@[j] == before[j - 1]);
                    if p < before.len() {
                        assert(before[p as int].nwk_addr.0 > x.nwk_addr.0);
                    }
                } else {
                    assert(out@[i] == before[i - 1]);
                    assert(out@[j] == before[j - 1]);
                }
            }
            assert(v@.subrange(0, k + 1) =~= v@.subrange(0, k as int).push(x));
        }
        k = k + 1;
    }
    proof {
        assert(v@.subrange(0, n as int) =~= v@);
    }
    match Vec::from_slice(out.as_slice()) {
        Ok(r) => {
            proof {
                assert(r@ =~= out@);
            }
            r
        },
        Err(_) => Vec::new(),
    }
}

/// The link status entry a neighbor is listed with.
pub open spec fn spec_link_entry(nb: NwkNeighbor) -> LinkStatusEntry {
    LinkStatusEntry {
        neighbor_address: nb.nwk_addr,
        link_status: LinkStatus { incoming_cost: nb.incoming_cost, outgoing_cost: nb.outgoing_cost },
    }
}

/// Each entry of a link status frame lists a child with that child's own
/// costs: the entry at place `t` of frame `i` is the child `15 i + t`, its
/// short address, its incoming cost as the incoming cost and its outgoing
/// cost as the outgoing cost.
pub proof fn lemma_link_status_entry_costs(c: Seq<NwkNeighbor>, i: nat, t: int)
    requires
        0 <= t < spec_link_status_entries(c, i).len(),
    ensures
        0 <= 15 * i + t < c.len(),
        spec_link_status_entries(c, i)[t].neighbor_address == c[15 * i + t].nwk_addr,
        spec_link_status_entries(c, i)[t].link_status.incoming_cost == c[15 * i + t].incoming_cost,
        spec_link_status_entries(c, i)[t].link_status.outgoing_cost == c[15 * i + t].outgoing_cost,
{
}

/// How many link status frames a router sends for `len` children: as few
/// as list them all, frame `i` listing up to 16 of them from the 15 i-th
/// on; one where there is none.
pub open spec fn spec_link_status_frame_count(len: nat) -> nat {
    if len <= 16 {
        1
    } else {
        ((len - 2) as nat / 15 + 1) as nat
    }
}

/// The entries of the link status frame `i`: up to 16 children from the
/// 15 i-th on (frames overlap by one).
pub open spec fn spec_link_status_entries(c: Seq<NwkNeighbor>, i: nat) -> Seq<LinkStatusEntry> {
    let start = i * 15;
    let m = if start >= c.len() {
        0
    } else if c.len() - start > 16 {
        16
    } else {
        c.len() - start
    };
    Seq::new(m as nat, |j: int| spec_link_entry(c[start + j]))
}

/// Every child is listed by the link status frames: child `k` stands in
/// frame `i` (the one returned) at place `k - 15 i`; and frames overlap,
/// each after the first starting with the last child of the one before.
pub proof fn lemma_link_status_lists_all(c: Seq<NwkNeighbor>, k: int) -> (i: nat)
    requires
        0 <= k < c.len(),
    ensures
        i < spec_link_status_frame_count(c.len()),
        0 <= k - 15 * i < spec_link_status_entries(c, i).len(),
        spec_link_status_entries(c, i)[k - 15 * i] == spec_link_entry(c[k]),
        forall|f: nat|
            0 < f < spec_link_status_frame_count(c.len()) ==> #[trigger] spec_link_status_entries(c, f)[0]
                == spec_link_status_entries(c, (f - 1) as nat)[15],
{
    let n = c.len();
    let i: nat = if k < 16 {
        0
    } else {
        ((k - 1) / 15) as nat
    };
    assert(15 * i <= k < 15 * i + 16);
    if n > 16 {
        assert(i <= (n - 2) as nat / 15);
    }
    assert forall|f: nat| 0 < f < spec_link_status_frame_count(n) implies #[trigger] spec_link_status_entries(c, f)[0]
        == spec_link_status_entries(c, (f - 1) as nat)[15] by {
        assert(n > 16);
        assert(15 * f < n) by {
            assert(f <= (n - 2) as nat / 15);
        }
        assert(15 * (f - 1) + 16 <= n);
    }
    i
}

/// The most link status frames a router sends.
pub const MAX_LINK_STATUS_COMMAND_FRAMES: usize = 16;

/// Makes the link status commands a router sends. The expired children are
/// dropped and the others sorted by short address; frame `i` lists up to
/// 16 of them from the 15 i-th on, so that each frame starts with the last
/// address of the one before, and there are as many frames as list them
/// all. The first frame is marked first, the last one last.
pub fn make_link_status_commands(table: &mut NeighborTable, now: u64) -> (r: Vec<Command, MAX_LINK_STATUS_COMMAND_FRAMES>)
    ensures
        final(table).parent == old(table).parent,
        final(table).children@.to_multiset() == old(table).children@.filter(alive_at(now)).to_multiset(),
        sorted_by_address(final(table).children@),
        r@.len() == spec_link_status_frame_count(final(table).children@.len()),
        forall|i: int|
            0 <= i < r@.len() ==> {
                let e = spec_link_status_entries(final(table).children@, i as nat);
                #[trigger] r@[i]@ == CommandView::LinkStatus(
                    LinkStatusOptions {
                        entry_count: e.len() as u8,
                        first_frame: i == 0,
                        last_frame: i == r@.len() - 1,
                    },
                    e,
                )
            },
{
    table.cleanup(now);
    let sorted = sort_by_address(&table.children);
    table.children = sorted;
    let c = &table.children;
    let cn = c.len();
    let len = cn;
    let n_frames: usize = if len <= 16 {
        1
    } else {
        (len - 2) / 15 + 1
    };
    let mut commands: Vec<Command, MAX_LINK_STATUS_COMMAND_FRAMES> = Vec::new();
    let mut i: usize = 0;
    while i < n_frames
        invariant
            n_frames == spec_link_status_frame_count(len as nat),
            n_frames <= 3,
            i <= n_frames,
            cn == c@.len(),
            cn <= 32,
            commands@.len() == i,
            forall|f: int|
                0 <= f < i ==> {
                    let e = spec_link_status_entries(c@, f as nat);
                    #[trigger] commands@[f]@ == CommandView::LinkStatus(
                        LinkStatusOptions {
                            entry_count: e.len() as u8,
                            first_frame: f == 0,
                            last_frame: f == n_frames - 1,
                        },
                        e,
                    )
                },
        decreases n_frames - i,
    {
        let start = i * 15;
        let mut entries: Vec<LinkStatusEntry, 16> = Vec::new();
        let mut j: usize = start;
        while j < cn && j < start + 16
            invariant
                cn == c@.len(),
                cn <= 32,
                start == i * 15,
                i < 3,
                start <= j <= start + 16,
                j <= cn || j == start,
                entries@.len() == j - start,
                forall|t: int| 0 <= t < j - start ==> entries@[t] == spec_link_entry(c@[start + t]),
            decreases cn - j,
        {
            let nb = c.get(j);
            let e = LinkStatusEntry {
                neighbor_address: nb.nwk_addr,
                link_status: LinkStatus { incoming_cost: nb.incoming_cost, outgoing_cost: nb.outgoing_cost },
            };
            let _ = entries.push(e);
            j = j + 1;
        }
        proof {
            let want = spec_link_status_entries(c@, i as nat);
            assert((i as nat) * 15 == start as nat);
            if start >= cn {
                assert(j == start);
            } else if cn - start > 16 {
                assert(j == start + 16);
            } else {
                assert(j == cn);
            }
            assert(entries@.len() == want.len());
            assert forall|t: int| 0 <= t < want.len() implies entries@[t] == want[t] by {}
            assert(entries@ =~= want);
        }
        let count = entries.len() as u8;
        let cmd = Command::LinkStatus(
            LinkStatusCmd {
                command_options: LinkStatusOptions {
                    entry_count: count,
                    first_frame: i == 0,
                    last_frame: i + 1 == n_frames,
                },
                entries,
            },
        );
        let _ = commands.push(cmd);
        i = i + 1;
    }
    commands
}

/// The first steps on a frame that was received and decrypted: its radius
/// goes down by one, the extended source address it carries is stored in
/// the address map, and the frame is checked (see
/// [`spec_passes_security_check`]); the result says whether it passed.
pub fn process_incoming_frame(
    addr_map: &mut AddressMap,
    level: SecurityLevel,
    addr: NwkAddress,
    is_authorized: bool,
    frame: &mut NwkFrame,
) -> (r: bool)
    requires
        old(frame)@.spec_header().radius > 0,
    ensures
        final(frame)@ == old(frame)@.with_header(
            NwkHeaderView { radius: (old(frame)@.spec_header().radius - 1) as u8, ..old(frame)@.spec_header() },
        ),
        final(addr_map).map.entries() == match old(frame)@.spec_header().source_ieee {
            Some(e) => spec_addr_map_after(*old(addr_map), old(frame)@.spec_header().source, e),
            None => old(addr_map).map.entries(),
        },
        r == spec_passes_security_check(level, addr, is_authorized, final(frame)@),
{
    {
        let hdr = frame.header_mut();
        hdr.radius = hdr.radius - 1;
        if let Some(e) = hdr.source_ieee {
            addr_map.insert(hdr.source, e);
        }
    }
    frame_passes_security_check(level, addr, is_authorized, frame)
}

/// Whether a frame may be taken: secured frames, or any frame in a network
/// without security; otherwise, before authorization, data frames and
/// rejoin responses, and rejoin requests to this device at any time.
pub open spec fn spec_passes_security_check(
    level: SecurityLevel,
    addr: NwkAddress,
    is_authorized: bool,
    frame: NwkFrameView,
) -> bool {
    if frame.spec_header().control.security || level == SecurityLevel::Unsecured {
        true
    } else if is_authorized && frame is Data {
        false
    } else if frame matches NwkFrameView::NwkCommand(_, CommandView::RejoinRequest(_)) {
        frame.spec_header().destination == addr
    } else if !is_authorized {
        frame is Data || frame matches NwkFrameView::NwkCommand(_, CommandView::RejoinResponse(_))
    } else {
        true
    }
}

/// The security check of a received frame: a secured frame, or any frame
/// in a network without security, is taken. An unsecured frame in a
/// secured network is taken, before this device is authorized, where it
/// is a data frame or a rejoin response; a rejoin request only where it is
/// sent to this device, authorized or not; once authorized, no data frame,
/// and any other command.
pub proof fn lemma_security_check(level: SecurityLevel, addr: NwkAddress, is_authorized: bool, frame: NwkFrameView)
    ensures
        frame.spec_header().control.security ==> spec_passes_security_check(level, addr, is_authorized, frame),
        level == SecurityLevel::Unsecured ==> spec_passes_security_check(level, addr, is_authorized, frame),
        !frame.spec_header().control.security && level != SecurityLevel::Unsecured ==> {
            &&& (frame matches NwkFrameView::NwkCommand(_, CommandView::RejoinResponse(_)) && !is_authorized)
                ==> spec_passes_security_check(level, addr, is_authorized, frame)
            &&& (frame is Data) ==> (spec_passes_security_check(level, addr, is_authorized, frame) <==> !is_authorized)
            &&& (frame matches NwkFrameView::NwkCommand(_, CommandView::RejoinRequest(_))) ==> (
            spec_passes_security_check(level, addr, is_authorized, frame) <==> frame.spec_header().destination == addr)
            &&& (frame matches NwkFrameView::NwkCommand(_, c) && !(c is RejoinRequest) && !(c is RejoinResponse)) ==> (
            spec_passes_security_check(level, addr, is_authorized, frame) <==> is_authorized)
        },
{
}

/// Whether a frame may be taken (see [`spec_passes_security_check`]).
pub fn frame_passes_security_check(
    level: SecurityLevel,
    addr: NwkAddress,
    is_authorized: bool,
    frame: &NwkFrame,
) -> (r: bool)
    ensures
        r == spec_passes_security_check(level, addr, is_authorized, frame@),
{
    let unsecured = match level {
        SecurityLevel::Unsecured => true,
        _ => false,
    };
    if frame.is_secured() || unsecured {
        return true;
    }
    let is_data = match frame {
        NwkFrame::Data(_) => true,
        _ => false,
    };
    if is_authorized && is_data {
        return false;
    }
    if let NwkFrame::NwkCommand(c) = frame {
        if let Command::RejoinRequest(_) = c.command {
            return c.header.destination == addr;
        }
    }
    if !is_authorized {
        match frame {
            NwkFrame::Data(_) => true,
            NwkFrame::NwkCommand(c) => match c.command {
                Command::RejoinResponse(_) => true,
                _ => false,
            },
            _ => false,
        }
    } else {
        true
    }
}

/// A leave command to send, to `dest` (and `dest_ext` where known).
#[derive(Clone, Copy, Debug, PartialEq, Eq, Structural)]
pub struct LeaveEmission {
    pub leave: Leave,
    pub dest: NwkAddress,
    pub dest_ext: Option<ExtendedAddress>,
}

/// What a device does on a leave command: a leave command to send, and
/// what to report.
#[derive(Clone, Copy, Debug, PartialEq, Eq, Structural)]
pub struct LeaveDecision {
    pub emit: Option<LeaveEmission>,
    pub indication: Option<NlmeLeaveIndication>,
}

/// The destination a leave command goes to: the device asked to leave for
/// a request, all devices whose receiver is on when idle otherwise.
pub fn leave_frame_destination(config: Leave, dest: NwkAddress) -> (r: NwkAddress)
    ensures
        r == (if config.request {
            dest
        } else {
            NwkAddress(0xfffd)
        }),
{
    if config.request {
        dest
    } else {
        NwkAddress::broadcast_rx_on_idle()
    }
}

impl RouterState {
    /// Handles a leave command with the NWK header `header`. A request to
    /// leave, sent to this device alone, is followed: this device announces
    /// that it leaves and reports that it is to leave. Otherwise the sender
    /// is dropped from the children; if it is the parent, this device
    /// reports that its parent left, and first passes the leave on to its
    /// own children where they are to leave too.
    pub fn handle_leave_request(&mut self, header: &NwkHeader, cmd: Leave) -> (r: LeaveDecision)
        ensures
            same_but_children(final(self), old(self)),
            cmd.request ==> final(self).neighbors.children@ == old(self).neighbors.children@ && r == (
            if header.destination.spec_is_broadcast() {
                LeaveDecision { emit: None, indication: None }
            } else {
                LeaveDecision {
                    emit: Some(
                        LeaveEmission {
                            leave: Leave {
                                request: false,
                                rejoin: cmd.rejoin,
                                remove_children: cmd.remove_children,
                            },
                            dest: NwkAddress(0xffff),
                            dest_ext: None,
                        },
                    ),
                    indication: Some(NlmeLeaveIndication::LeaveSelf { rejoin: cmd.rejoin }),
                }
            }),
            !cmd.request ==> final(self).neighbors.children@ == old(self).neighbors.children@.filter(
                lacks_short(header.source),
            ) && r == (if header.source == old(self).neighbors.parent.nwk_addr {
                LeaveDecision {
                    emit: if cmd.remove_children {
                        Some(
                            LeaveEmission {
                                leave: Leave {
                                    request: false,
                                    rejoin: cmd.rejoin,
                                    remove_children: cmd.remove_children,
                                },
                                dest: NwkAddress(0xffff),
                                dest_ext: header.source_ieee,
                            },
                        )
                    } else {
                        None
                    },
                    indication: Some(NlmeLeaveIndication::LeaveParent { rejoin: cmd.rejoin }),
                }
            } else {
                LeaveDecision { emit: None, indication: None }
            }),
    {
        if cmd.request {
            if header.destination.is_broadcast() || !NWK_LEAVE_REQUEST_ALLOWED {
                return LeaveDecision { emit: None, indication: None };
            }
            return LeaveDecision {
                emit: Some(
                    LeaveEmission {
                        leave: Leave { request: false, rejoin: cmd.rejoin, remove_children: cmd.remove_children },
                        dest: NwkAddress(0xffff),
                        dest_ext: None,
                    },
                ),
                indication: Some(NlmeLeaveIndication::LeaveSelf { rejoin: cmd.rejoin }),
            };
        }
        self.neighbors.remove_by_short_addr(header.source);
        if header.source == self.neighbors.parent.nwk_addr {
            let emit = if cmd.remove_children {
                Some(
                    LeaveEmission {
                        leave: Leave { request: false, rejoin: cmd.rejoin, remove_children: cmd.remove_children },
                        dest: NwkAddress(0xffff),
                        dest_ext: header.source_ieee,
                    },
                )
            } else {
                None
            };
            LeaveDecision { emit, indication: Some(NlmeLeaveIndication::LeaveParent { rejoin: cmd.rejoin }) }
        } else {
            LeaveDecision { emit: None, indication: None }
        }
    }
}

/// How an end device handles a leave command with the NWK header `header`,
/// given its parent `parent`. A request to leave from the parent, sent to
/// this device alone, is followed: the device tells its parent that it
/// leaves and reports that it is to leave. A leave of the parent itself is
/// reported as such. Anything else is ignored.
pub open spec fn spec_end_device_leave(parent: NwkNeighbor, header: NwkHeader, cmd: Leave) -> LeaveDecision {
    if cmd.request {
        if header.destination.spec_is_broadcast() || parent.nwk_addr != header.source {
            LeaveDecision { emit: None, indication: None }
        } else {
            LeaveDecision {
                emit: Some(
                    LeaveEmission {
                        leave: Leave { request: false, rejoin: cmd.rejoin, remove_children: false },
                        dest: parent.nwk_addr,
                        dest_ext: parent.ext_addr,
                    },
                ),
                indication: Some(NlmeLeaveIndication::LeaveSelf { rejoin: cmd.rejoin }),
            }
        }
    } else if header.source == parent.nwk_addr {
        LeaveDecision { emit: None, indication: Some(NlmeLeaveIndication::LeaveParent { rejoin: cmd.rejoin }) }
    } else {
        LeaveDecision { emit: None, indication: None }
    }
}

/// See [`spec_end_device_leave`].
pub fn end_device_handle_leave_request(parent: &NwkNeighbor, header: &NwkHeader, cmd: Leave) -> (r: LeaveDecision)
    ensures
        r == spec_end_device_leave(*parent, *header, cmd),
{
    if cmd.request {
        if header.destination.is_broadcast() || parent.nwk_addr != header.source {
            return LeaveDecision { emit: None, indication: None };
        }
        LeaveDecision {
            emit: Some(
                LeaveEmission {
                    leave: Leave { request: false, rejoin: cmd.rejoin, remove_children: false },
                    dest: parent.nwk_addr,
                    dest_ext: parent.ext_addr,
                },
            ),
            indication: Some(NlmeLeaveIndication::LeaveSelf { rejoin: cmd.rejoin }),
        }
    } else if header.source == parent.nwk_addr {
        LeaveDecision { emit: None, indication: Some(NlmeLeaveIndication::LeaveParent { rejoin: cmd.rejoin }) }
    } else {
        LeaveDecision { emit: None, indication: None }
    }
}

/// An end device acts on a leave command from its parent alone. Asked to
/// leave, by its parent and not by a broadcast, it reports that it leaves,
/// rejoining as asked, and tells its parent, by both of its addresses,
/// that it leaves without asking anyone to leave and without children to
/// remove. Told that its parent leaves, it reports so and sends nothing.
pub proof fn lemma_end_device_leave(parent: NwkNeighbor, header: NwkHeader, cmd: Leave)
    ensures
        ({
            let d = spec_end_device_leave(parent, header, cmd);
            &&& header.source != parent.nwk_addr ==> d.emit is None && d.indication is None
            &&& (cmd.request && header.destination.spec_is_broadcast()) ==> d.emit is None && d.indication is None
            &&& (cmd.request && !header.destination.spec_is_broadcast() && header.source == parent.nwk_addr) ==> {
                &&& d.indication == Some(NlmeLeaveIndication::LeaveSelf { rejoin: cmd.rejoin })
                &&& d.emit matches Some(e) && !e.leave.request && !e.leave.remove_children
                    && e.leave.rejoin == cmd.rejoin && e.dest == parent.nwk_addr && e.dest_ext == parent.ext_addr
            }
            &&& (!cmd.request && header.source == parent.nwk_addr) ==> d.emit is None && d.indication == Some(
                NlmeLeaveIndication::LeaveParent { rejoin: cmd.rejoin },
            )
        }),
{
}

/// What an end device does with a received frame: what it hands up, and a
/// leave command to send.
pub struct EndDeviceReception {
    pub indication: Option<NwkIndication>,
    pub emit: Option<LeaveEmission>,
}

/// The indication a leave decision reports.
pub open spec fn leave_indication(d: LeaveDecision) -> Option<NwkIndication> {
    match d.indication {
        Some(k) => Some(NwkIndication::Leave(k)),
        None => None,
    }
}

/// What an end device does with a frame that passed the first checks (see
/// [`process_incoming_frame`]) and came from `mac_src`: a data indication
/// for a data frame addressed to it (see [`spec_matches_end_device`]). Of
/// the commands sent by a short address, a leave command is handled as
/// [`spec_end_device_leave`] says, given the parent `parent`, and what it
/// reports is handed up; from an end device timeout response, the parent
/// information it carries is kept. Nothing else is handed up, sent or
/// changed.
pub fn end_device_handle_frame(
    addr: NwkAddress,
    groups: &GroupTable,
    parent: &NwkNeighbor,
    parent_information: &mut ParentInformation,
    frame: &NwkFrame,
    mac_src: Option<MacAddress>,
    link_quality: u8,
    use_security: bool,
) -> (r: EndDeviceReception)
    ensures
        match *frame {
            NwkFrame::Data(d) => {
                &&& r.emit is None
                &&& (r.indication is Some <==> spec_matches_end_device(addr, groups@, d.header))
                &&& (r.indication matches Some(NwkIndication::Data(ind)) ==> {
                    &&& ind.dst_address == (if d.header.multicast_control is Some {
                        NldeDataIndicationDstAddress::Multicast(d.header.destination)
                    } else {
                        NldeDataIndicationDstAddress::UnicastOrBroadcast(d.header.destination)
                    })
                    &&& ind.src_address == d.header.source
                    &&& ind.nsdu@ == d.payload@
                    &&& ind.link_quality == link_quality
                    &&& ind.security_use == use_security
                })
                &&& (r.indication is Some ==> r.indication matches Some(NwkIndication::Data(_)))
            },
            NwkFrame::NwkCommand(c) => match (c.command, mac_src) {
                (Command::Leave(l), Some(MacAddress::Short(_, _))) => {
                    &&& r.indication == leave_indication(spec_end_device_leave(*parent, c.header, l))
                    &&& r.emit == spec_end_device_leave(*parent, c.header, l).emit
                },
                _ => r.indication is None && r.emit is None,
            },
            _ => r.indication is None && r.emit is None,
        },
        *final(parent_information) == (match (*frame, mac_src) {
            (
                NwkFrame::NwkCommand(c),
                Some(MacAddress::Short(_, _)),
            ) => match c.command {
                Command::EndDeviceTimeoutResponse(resp) => resp.parent_information,
                _ => *old(parent_information),
            },
            _ => *old(parent_information),
        }),
{
    match frame {
        NwkFrame::Data(d) => {
            if frame_matches_self_end_device(addr, groups, &d.header) {
                EndDeviceReception {
                    indication: Some(NwkIndication::Data(return_data_indication(d, link_quality, use_security))),
                    emit: None,
                }
            } else {
                EndDeviceReception { indication: None, emit: None }
            }
        },
        NwkFrame::NwkCommand(c) => {
            match mac_src {
                Some(MacAddress::Short(_, _)) => {},
                _ => return EndDeviceReception { indication: None, emit: None },
            }
            match &c.command {
                Command::EndDeviceTimeoutResponse(resp) => {
                    *parent_information = resp.parent_information;
                    EndDeviceReception { indication: None, emit: None }
                },
                Command::Leave(l) => {
                    let d = end_device_handle_leave_request(parent, &c.header, *l);
                    let indication = match d.indication {
                        Some(k) => Some(NwkIndication::Leave(k)),
                        None => None,
                    };
                    EndDeviceReception { indication, emit: d.emit }
                },
                _ => EndDeviceReception { indication: None, emit: None },
            }
        },
        _ => EndDeviceReception { indication: None, emit: None },
    }
}

/// The handler a router gives a received command to.
#[derive(Clone, Copy, Debug, PartialEq, Eq, Structural)]
pub enum RouterCommandHandler {
    RouteRequest,
    RouteReply,
    RejoinRequest,
    LinkStatus,
    EndDeviceTimeoutRequest,
    /// See [`RouterState::handle_leave_request`].
    Leave,
    /// The handling an end device gives it.
    AsEndDevice,
}

/// Which handler a router at `addr` gives a command with the header
/// `header`, received from a short MAC address: route requests, rejoin
/// requests, link status, end device timeout requests and leave commands
/// to their own; route replies only where addressed to this router; end
/// device timeout responses as an end device does; the others to none.
pub fn router_command_handler(addr: NwkAddress, header: &NwkHeader, cmd: &Command) -> (r: Option<RouterCommandHandler>)
    ensures
        r == match cmd@ {
            CommandView::RouteRequest(_) => Some(RouterCommandHandler::RouteRequest),
            CommandView::RouteReply(_) => if header.destination == addr {
                Some(RouterCommandHandler::RouteReply)
            } else {
                None
            },
            CommandView::RejoinRequest(_) => Some(RouterCommandHandler::RejoinRequest),
            CommandView::LinkStatus(_, _) => Some(RouterCommandHandler::LinkStatus),
            CommandView::EndDeviceTimeoutRequest(_) => Some(RouterCommandHandler::EndDeviceTimeoutRequest),
            CommandView::EndDeviceTimeoutResponse(_) => Some(RouterCommandHandler::AsEndDevice),
            CommandView::Leave(_) => Some(RouterCommandHandler::Leave),
            _ => None,
        },
{
    match cmd {
        Command::RouteRequest(_) => Some(RouterCommandHandler::RouteRequest),
        Command::RouteReply(_) => if header.destination == addr {
            Some(RouterCommandHandler::RouteReply)
        } else {
            None
        },
        Command::RejoinRequest(_) => Some(RouterCommandHandler::RejoinRequest),
        Command::LinkStatus(_) => Some(RouterCommandHandler::LinkStatus),
        Command::EndDeviceTimeoutRequest(_) => Some(RouterCommandHandler::EndDeviceTimeoutRequest),
        Command::EndDeviceTimeoutResponse(_) => Some(RouterCommandHandler::AsEndDevice),
        Command::Leave(_) => Some(RouterCommandHandler::Leave),
        _ => None,
    }
}

} // verus!
