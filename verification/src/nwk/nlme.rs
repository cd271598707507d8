//! Joining a network: what a scan found, which devices may become parents,
//! and what a parent's answers make of this device. Scanning, associating
//! and sending are left to the caller.
use vstd::prelude::*;

use crate::collections::{lemma_filter_step, Vec};
use crate::common::{DeviceType, ExtendedAddress, NwkAddress, PanId, BROADCAST_RX_ON_IDLE};
use crate::mac::{Channel, ChannelMask, ChannelPage, MacAddress};
use crate::nwk::commands::{Leave, LinkCost, RejoinResponse};
use crate::nwk::nlde::NldeTransferError;
use crate::nwk::frame::header::NwkHeader;
use crate::nwk::nib::{
    first_index, has_ext, lemma_finds_spec_find, none_matches, spec_default_timeout, spec_find,
    NeighborRelationship, NeighborTable, NewNwkNeighbour, NwkNeighbor,
};
use crate::nwk::routing::compute_routing_cost;
use crate::stack_profile::StackProfile;

verus! {

/// The most beacons a scan keeps.
pub const MAX_PAN_DESCRIPTORS: usize = 32;

/// The most networks a scan tells apart.
pub const MAX_NETWORK_DESCRIPTORS: usize = 16;

/// The most channels an energy scan reports.
pub const MAX_ED_CHANNELS: usize = 64;

/// What the superframe specification of a beacon says.
#[derive(Clone, Copy, Debug, PartialEq, Eq, Structural)]
pub struct SuperframeSpec {
    pub beacon_order: u8,
    pub superframe_order: u8,
    pub pan_coordinator: bool,
    pub association_permit: bool,
}

/// The network parameters of a beacon payload.
#[derive(Clone, Copy, Debug, PartialEq, Eq, Structural)]
pub struct NetworkParameters {
    pub stack_profile: StackProfile,
    pub protocol_version: u8,
    pub router_capacity: bool,
    pub device_depth: u8,
    pub end_device_capacity: bool,
}

/// The payload of a beacon of this stack.
#[derive(Clone, Copy, Debug)]
pub struct ZigbeeBeacon {
    pub protocol_id: u8,
    pub network_parameters: NetworkParameters,
    pub extended_pan_id: ExtendedAddress,
    pub tx_offset: [u8; 3],
    pub update_id: u8,
}

/// A beacon heard in a scan: who sent it, on which network and channel,
/// and how well it was heard.
#[derive(Clone, Copy, Debug)]
pub struct PanDescriptor {
    pub coord_address: MacAddress,
    pub coord_pan_id: PanId,
    pub channel: Channel,
    pub superframe_spec: SuperframeSpec,
    pub zigbee_beacon: ZigbeeBeacon,
    pub link_quality: u8,
}

impl PanDescriptor {
    /// The short address of the device that sent the beacon, if it sent
    /// one.
    pub fn coord_short_address(&self) -> (r: Option<NwkAddress>)
        ensures
            r == (match self.coord_address {
                MacAddress::Short(_, a) => Some(a),
                _ => None,
            }),
    {
        match self.coord_address {
            MacAddress::Short(_, a) => Some(a),
            _ => None,
        }
    }
}

/// A network a scan found, with the routers heard on it.
pub struct NetworkDescriptor {
    pub extended_pan_id: ExtendedAddress,
    pub pan_id: PanId,
    pub update_id: u8,
    pub logical_channel: Channel,
    pub stack_profile: StackProfile,
    pub zigbee_version: u8,
    pub beacon_order: u8,
    pub superframe_order: u8,
    pub router_capacity: bool,
    pub end_device_capacity: bool,
    pub routers: Vec<PanDescriptor, MAX_PAN_DESCRIPTORS>,
}

/// What a [`NetworkDescriptor`] holds.
pub ghost struct NetworkDescriptorView {
    pub extended_pan_id: ExtendedAddress,
    pub pan_id: PanId,
    pub update_id: u8,
    pub logical_channel: Channel,
    pub stack_profile: StackProfile,
    pub zigbee_version: u8,
    pub beacon_order: u8,
    pub superframe_order: u8,
    pub router_capacity: bool,
    pub end_device_capacity: bool,
    pub routers: Seq<PanDescriptor>,
}

impl View for NetworkDescriptor {
    type V = NetworkDescriptorView;

    open spec fn view(&self) -> NetworkDescriptorView {
        NetworkDescriptorView {
            extended_pan_id: self.extended_pan_id,
            pan_id: self.pan_id,
            update_id: self.update_id,
            logical_channel: self.logical_channel,
            stack_profile: self.stack_profile,
            zigbee_version: self.zigbee_version,
            beacon_order: self.beacon_order,
            superframe_order: self.superframe_order,
            router_capacity: self.router_capacity,
            end_device_capacity: self.end_device_capacity,
            routers: self.routers@,
        }
    }
}

/// Whether a router may be asked to be a parent: any router, or only those
/// that permit association.
pub open spec fn may_parent(require_permit_joining: bool) -> spec_fn(PanDescriptor) -> bool {
    |pd: PanDescriptor| !require_permit_joining || pd.superframe_spec.association_permit
}

/// Routers in ascending order of depth.
pub open spec fn sorted_by_depth(s: Seq<PanDescriptor>) -> bool {
    forall|i: int, j: int|
        0 <= i <= j < s.len() ==> s[i].zigbee_beacon.network_parameters.device_depth
            <= s[j].zigbee_beacon.network_parameters.device_depth
}

/// Whether a router is at depth `d`.
pub open spec fn depth_is(d: u8) -> spec_fn(PanDescriptor) -> bool {
    |pd: PanDescriptor| pd.zigbee_beacon.network_parameters.device_depth == d
}

/// Inserting `x` where the items deeper than it start: the routers at its
/// depth get it last, the others are as they were.
proof fn lemma_insert_by_depth(a: Seq<PanDescriptor>, p: int, x: PanDescriptor, d: u8)
    requires
        0 <= p <= a.len(),
        forall|j: int|
            p <= j < a.len() ==> #[trigger] a[j].zigbee_beacon.network_parameters.device_depth
                > x.zigbee_beacon.network_parameters.device_depth,
    ensures
        a.insert(p, x).filter(depth_is(d)) == (if x.zigbee_beacon.network_parameters.device_depth == d {
            a.filter(depth_is(d)).push(x)
        } else {
            a.filter(depth_is(d))
        }),
{
    let f = depth_is(d);
    let b = a.subrange(0, p);
    let c = a.subrange(p, a.len() as int);
    assert(a =~= b + c);
    assert(a.insert(p, x) =~= b.push(x) + c);
    Seq::filter_distributes_over_add(b, c, f);
    Seq::filter_distributes_over_add(b.push(x), c, f);
    b.lemma_filter_push(x, f);
    if x.zigbee_beacon.network_parameters.device_depth == d {
        assert(c.all(|y: PanDescriptor| !f(y))) by {
            assert forall|j: int| 0 <= j < c.len() implies !f(#[trigger] c[j]) by {
                assert(c[j] == a[p + j]);
            }
        }
        c.lemma_all_neg_filter_empty(f);
        assert(c.filter(f) =~= Seq::<PanDescriptor>::empty());
        assert(b.filter(f).push(x) + c.filter(f) =~= (b.filter(f) + c.filter(f)).push(x));
    }
}

/// The routers of `s` in ascending order of depth; routers of the same
/// depth keep their order.
pub fn sort_by_depth(s: &std::vec::Vec<PanDescriptor>) -> (r: std::vec::Vec<PanDescriptor>)
    ensures
        r@.to_multiset() == s@.to_multiset(),
        sorted_by_depth(r@),
        forall|d: u8| #[trigger] r@.filter(depth_is(d)) == s@.filter(depth_is(d)),
{
    broadcast use vstd::seq_lib::to_multiset_insert, vstd::seq_lib::to_multiset_build;

    let n = s.len();
    let mut out: std::vec::Vec<PanDescriptor> = std::vec::Vec::new();
    let mut k: usize = 0;
    proof {
        assert(s@.subrange(0, 0) =~= Seq::<PanDescriptor>::empty());
    }
    while k < n
        invariant
            n == s@.len(),
            k <= n,
            out@.len() == k,
            out@.to_multiset() == s@.subrange(0, k as int).to_multiset(),
            sorted_by_depth(out@),
            forall|d: u8| #[trigger] out@.filter(depth_is(d)) == s@.subrange(0, k as int).filter(depth_is(d)),
        decreases n - k,
    {
        let x = s[k];
        let d = x.zigbee_beacon.network_parameters.device_depth;
        let mut p: usize = 0;
        while p < out.len() && out[p].zigbee_beacon.network_parameters.device_depth <= d
            invariant
                p <= out@.len(),
                d == x.zigbee_beacon.network_parameters.device_depth,
                forall|j: int| 0 <= j < p ==> out@[j].zigbee_beacon.network_parameters.device_depth <= d,
            decreases out@.len() - p,
        {
            p = p + 1;
        }
        let ghost before = out@;
        out.insert(p, x);
        proof {
            assert(out@ == before.insert(p as int, x));
            before.insert_ensures(p as int, x);
            vstd::seq_lib::to_multiset_insert(before, p as int, x);
            vstd::seq_lib::to_multiset_build(s@.subrange(0, k as int), x);
            assert forall|i: int, j: int| 0 <= i <= j < out@.len() implies out@[i].zigbee_beacon.network_parameters.device_depth
                <= out@[j].zigbee_beacon.network_parameters.device_depth by {
                if i < p && j > p {
                    assert(out@[j] == before[j - 1]);
                } else if i == p && j > p {
                    assert(out@[j] == before[j - 1]);
                    if p < before.len() {
                        assert(before[p as int].zigbee_beacon.network_parameters.device_depth > d);
                    }
                } else if i > p {
                    assert(out@[i] == before[i - 1]);
                    assert(out@[j] == before[j - 1]);
                }
            }
            assert(s@.subrange(0, k + 1) =~= s@.subrange(0, k as int).push(x));
            assert forall|j: int| p <= j < before.len() implies #[trigger] before[j].zigbee_beacon.network_parameters.device_depth
                > d by {
                assert(before[p as int].zigbee_beacon.network_parameters.device_depth > d);
            }
            assert forall|dd: u8| #[trigger] out@.filter(depth_is(dd)) == s@.subrange(0, k + 1).filter(depth_is(dd)) by {
                lemma_insert_by_depth(before, p as int, x, dd);
                s@.subrange(0, k as int).lemma_filter_push(x, depth_is(dd));
            }
        }
        k = k + 1;
    }
    proof {
        assert(s@.subrange(0, n as int) =~= s@);
    }
    out
}

impl NetworkDescriptor {
    /// Whether a router of the network permits association.
    pub fn is_permit_joining(&self) -> (r: bool)
        ensures
            r == exists|i: int| 0 <= i < self.routers@.len() && self.routers@[i].superframe_spec.association_permit,
    {
        let n = self.routers.len();
        let mut i: usize = 0;
        while i < n
            invariant
                n == self.routers@.len(),
                i <= n,
                forall|j: int| 0 <= j < i ==> !self.routers@[j].superframe_spec.association_permit,
            decreases n - i,
        {
            if self.routers.get(i).superframe_spec.association_permit {
                return true;
            }
            i = i + 1;
        }
        false
    }

    /// The routers that may be asked to be a parent (see [`may_parent`]),
    /// in their order; on a network of the older stack profile, in
    /// ascending order of depth, those of the same depth in their order.
    pub fn get_potential_parents(&self, require_permit_joining: bool) -> (r: Vec<PanDescriptor, MAX_PAN_DESCRIPTORS>)
        ensures
            self.stack_profile != StackProfile::Zigbee ==> r@ == self.routers@.filter(may_parent(require_permit_joining)),
            self.stack_profile == StackProfile::Zigbee ==> r@.to_multiset() == self.routers@.filter(
                may_parent(require_permit_joining),
            ).to_multiset() && sorted_by_depth(r@),
            self.stack_profile == StackProfile::Zigbee ==> forall|d: u8| #[trigger] r@.filter(depth_is(d))
                == self.routers@.filter(may_parent(require_permit_joining)).filter(depth_is(d)),
    {
        let ghost pred = may_parent(require_permit_joining);
        let n = self.routers.len();
        let mut out: std::vec::Vec<PanDescriptor> = std::vec::Vec::new();
        let mut i: usize = 0;
        while i < n
            invariant
                n == self.routers@.len(),
                n <= MAX_PAN_DESCRIPTORS,
                i <= n,
                pred == may_parent(require_permit_joining),
                out@ == self.routers@.subrange(0, i as int).filter(pred),
            decreases n - i,
        {
            proof {
                lemma_filter_step(self.routers@, pred, i as int);
            }
            let pd = *self.routers.get(i);
            if !require_permit_joining || pd.superframe_spec.association_permit {
                out.push(pd);
            }
            i = i + 1;
        }
        proof {
            assert(self.routers@.subrange(0, n as int) =~= self.routers@);
            self.routers@.lemma_filter_len(pred);
        }
        let sorted = match self.stack_profile {
            StackProfile::Zigbee => sort_by_depth(&out),
            StackProfile::ZigbeePro => out,
        };
        proof {
            if self.stack_profile == StackProfile::Zigbee {
                vstd::seq_lib::to_multiset_len(sorted@);
                vstd::seq_lib::to_multiset_len(out@);
            }
        }
        match Vec::from_slice(sorted.as_slice()) {
            Ok(r) => {
                proof {
                    assert(r@ =~= sorted@);
                }
                r
            },
            Err(_) => Vec::new(),
        }
    }
}

/// Whether a network has the extended PAN identifier `ext`.
pub open spec fn has_ext_pan_id(ext: ExtendedAddress) -> spec_fn(NetworkDescriptorView) -> bool {
    |nd: NetworkDescriptorView| nd.extended_pan_id == ext
}

/// The network a beacon first tells of.
pub open spec fn spec_network_of(pd: PanDescriptor) -> NetworkDescriptorView {
    NetworkDescriptorView {
        extended_pan_id: pd.zigbee_beacon.extended_pan_id,
        pan_id: pd.coord_pan_id,
        update_id: pd.zigbee_beacon.update_id,
        logical_channel: pd.channel,
        stack_profile: pd.zigbee_beacon.network_parameters.stack_profile,
        zigbee_version: pd.zigbee_beacon.network_parameters.protocol_version,
        beacon_order: pd.superframe_spec.beacon_order,
        superframe_order: pd.superframe_spec.superframe_order,
        router_capacity: pd.zigbee_beacon.network_parameters.router_capacity,
        end_device_capacity: pd.zigbee_beacon.network_parameters.end_device_capacity,
        routers: seq![pd],
    }
}

/// A beacon taken into the networks found so far: it joins the routers of
/// the first network with its extended PAN identifier, or starts a network
/// of its own; it is dropped where there is no room.
pub open spec fn spec_add_beacon(nds: Seq<NetworkDescriptorView>, pd: PanDescriptor) -> Seq<NetworkDescriptorView> {
    let p = has_ext_pan_id(pd.zigbee_beacon.extended_pan_id);
    if exists|i: int| first_index(nds, p, i) {
        let i = choose|i: int| first_index(nds, p, i);
        if nds[i].routers.len() < MAX_PAN_DESCRIPTORS {
            nds.update(i, NetworkDescriptorView { routers: nds[i].routers.push(pd), ..nds[i] })
        } else {
            nds
        }
    } else if nds.len() < MAX_NETWORK_DESCRIPTORS {
        nds.push(spec_network_of(pd))
    } else {
        nds
    }
}

/// The networks the beacons `pds` tell of, in the order they were first
/// heard.
pub open spec fn spec_group_beacons(pds: Seq<PanDescriptor>) -> Seq<NetworkDescriptorView>
    decreases pds.len(),
{
    if pds.len() == 0 {
        Seq::empty()
    } else {
        spec_add_beacon(spec_group_beacons(pds.drop_last()), pds.last())
    }
}

/// The views of a list of networks.
pub open spec fn networks_view(v: Seq<NetworkDescriptor>) -> Seq<NetworkDescriptorView> {
    v.map_values(|nd: NetworkDescriptor| nd@)
}

/// Sorts the beacons of a scan into networks (see
/// [`spec_group_beacons`]).
pub fn group_network_descriptors(pds: &[PanDescriptor]) -> (r: std::vec::Vec<NetworkDescriptor>)
    ensures
        networks_view(r@) == spec_group_beacons(pds@),
        r@.len() <= MAX_NETWORK_DESCRIPTORS,
{
    let mut nds: std::vec::Vec<NetworkDescriptor> = std::vec::Vec::new();
    let mut k: usize = 0;
    proof {
        assert(pds@.subrange(0, 0) =~= Seq::<PanDescriptor>::empty());
        assert(networks_view(nds@) =~= Seq::<NetworkDescriptorView>::empty());
    }
    while k < pds.len()
        invariant
            k <= pds@.len(),
            networks_view(nds@) == spec_group_beacons(pds@.subrange(0, k as int)),
            nds@.len() <= MAX_NETWORK_DESCRIPTORS,
        decreases pds@.len() - k,
    {
        let pd = pds[k];
        let ext = pd.zigbee_beacon.extended_pan_id;
        let ghost p = has_ext_pan_id(ext);
        let ghost before = networks_view(nds@);
        proof {
            let t = pds@.subrange(0, k + 1);
            assert(t.drop_last() =~= pds@.subrange(0, k as int));
            assert(t.last() == pd);
        }
        let mut i: usize = 0;
        while i < nds.len() && nds[i].extended_pan_id != ext
            invariant
                i <= nds@.len(),
                before == networks_view(nds@),
                p == has_ext_pan_id(ext),
                forall|j: int| 0 <= j < i ==> !p(#[trigger] before[j]),
            decreases nds@.len() - i,
        {
            proof {
                assert(before[i as int] == nds@[i as int]@);
            }
            i = i + 1;
        }
        if i < nds.len() {
            proof {
                assert(before[i as int] == nds@[i as int]@);
                assert(first_index(before, p, i as int));
                let j = choose|j: int| first_index(before, p, j);
                crate::nwk::router::lemma_first_index_unique(before, p, i as int, j);
            }
            let mut nd = nds.remove(i);
            let _ = nd.routers.push(pd);
            nds.insert(i, nd);
            proof {
                assert(networks_view(nds@) =~= spec_add_beacon(before, pd));
            }
        } else {
            proof {
                assert forall|j: int| !first_index(before, p, j) by {
                    if first_index(before, p, j) {
                        assert(!p(before[j]));
                    }
                }
            }
            if nds.len() < MAX_NETWORK_DESCRIPTORS {
                let mut routers: Vec<PanDescriptor, MAX_PAN_DESCRIPTORS> = Vec::new();
                let _ = routers.push(pd);
                nds.push(
                    NetworkDescriptor {
                        extended_pan_id: ext,
                        pan_id: pd.coord_pan_id,
                        update_id: pd.zigbee_beacon.update_id,
                        logical_channel: pd.channel,
                        stack_profile: pd.zigbee_beacon.network_parameters.stack_profile,
                        zigbee_version: pd.zigbee_beacon.network_parameters.protocol_version,
                        beacon_order: pd.superframe_spec.beacon_order,
                        superframe_order: pd.superframe_spec.superframe_order,
                        router_capacity: pd.zigbee_beacon.network_parameters.router_capacity,
                        end_device_capacity: pd.zigbee_beacon.network_parameters.end_device_capacity,
                        routers,
                    },
                );
            }
            proof {
                assert(networks_view(nds@) =~= spec_add_beacon(before, pd));
            }
        }
        k = k + 1;
    }
    proof {
        assert(pds@.subrange(0, pds@.len() as int) =~= pds@);
    }
    nds
}

/// What an energy scan reports of a channel: the page, the channel and the
/// energy detected.
#[derive(Clone, Copy, Debug, PartialEq, Eq, Structural)]
pub struct EdChannelInfo {
    pub channel_page: ChannelPage,
    pub channel: Channel,
    pub energy_detected: u8,
}

/// The report of an energy scan, one entry per beacon heard: page 0, the
/// beacon's channel, and its link quality as the energy.
pub fn ed_channel_info(pds: &[PanDescriptor]) -> (r: Vec<EdChannelInfo, MAX_ED_CHANNELS>)
    requires
        pds@.len() <= MAX_ED_CHANNELS,
    ensures
        r@.len() == pds@.len(),
        forall|i: int|
            0 <= i < pds@.len() ==> #[trigger] r@[i] == (EdChannelInfo {
                channel_page: ChannelPage::ChannelPage0,
                channel: pds@[i].channel,
                energy_detected: pds@[i].link_quality,
            }),
{
    let mut out: Vec<EdChannelInfo, MAX_ED_CHANNELS> = Vec::new();
    let mut i: usize = 0;
    while i < pds.len()
        invariant
            i <= pds@.len() <= MAX_ED_CHANNELS,
            out@.len() == i,
            forall|j: int|
                0 <= j < i ==> #[trigger] out@[j] == (EdChannelInfo {
                    channel_page: ChannelPage::ChannelPage0,
                    channel: pds@[j].channel,
                    energy_detected: pds@[j].link_quality,
                }),
        decreases pds@.len() - i,
    {
        let pd = pds[i];
        let _ = out.push(EdChannelInfo { channel_page: ChannelPage::ChannelPage0, channel: pd.channel, energy_detected: pd.link_quality });
        i = i + 1;
    }
    out
}

/// The first network with the extended PAN identifier `ext_pan_id`.
pub fn find_network(nds: &[NetworkDescriptor], ext_pan_id: ExtendedAddress) -> (r: Option<usize>)
    ensures
        r matches Some(i) ==> first_index(networks_view(nds@), has_ext_pan_id(ext_pan_id), i as int),
        r is None ==> none_matches(networks_view(nds@), has_ext_pan_id(ext_pan_id)),
{
    let mut i: usize = 0;
    while i < nds.len()
        invariant
            i <= nds@.len(),
            forall|j: int| 0 <= j < i ==> !has_ext_pan_id(ext_pan_id)(#[trigger] networks_view(nds@)[j]),
        decreases nds@.len() - i,
    {
        if nds[i].extended_pan_id == ext_pan_id {
            return Some(i);
        }
        i = i + 1;
    }
    None
}

/// The parent a successful association with the sender of `parent`
/// makes: a coordinator if it coordinates its PAN and a router otherwise,
/// with its receiver on, and the cost of the link it was heard over. A
/// beacon sent without a short address makes none.
pub fn association_parent(parent: &PanDescriptor, ext_addr: ExtendedAddress, now: u64) -> (r: Option<NwkNeighbor>)
    requires
        now + spec_default_timeout().spec_duration_ms() <= u64::MAX,
    ensures
        r == (match parent.coord_address {
            MacAddress::Short(_, a) => Some(
                NwkNeighbor {
                    incoming_cost: LinkCost::_7,
                    ..NwkNeighbor::spec_new(
                        NewNwkNeighbour {
                            ext_addr,
                            nwk_addr: a,
                            device_type: if parent.superframe_spec.pan_coordinator {
                                DeviceType::Coordinator
                            } else {
                                DeviceType::Router
                            },
                            rx_on_when_idle: true,
                            relationship: NeighborRelationship::Parent,
                        },
                        now,
                    )
                },
            ),
            _ => None,
        }),
{
    let nwk_addr = match parent.coord_short_address() {
        Some(a) => a,
        None => return None,
    };
    let device_type = if parent.superframe_spec.pan_coordinator {
        DeviceType::Coordinator
    } else {
        DeviceType::Router
    };
    let mut nb = NwkNeighbor::new(
        NewNwkNeighbour {
            ext_addr,
            nwk_addr,
            device_type,
            rx_on_when_idle: true,
            relationship: NeighborRelationship::Parent,
        },
        now,
    );
    nb.incoming_cost = compute_routing_cost();
    Some(nb)
}

/// The parent a rejoin response makes, if it makes one: the response must
/// carry both extended addresses, be meant for this device
/// (`self_ext_addr`) and come from the device asked (`parent_ext_addr`),
/// and grant the rejoin. The parent is then the response's sender, taken
/// as a router with its receiver off when idle.
pub fn rejoin_response_parent(
    self_ext_addr: ExtendedAddress,
    parent_ext_addr: ExtendedAddress,
    hdr: &NwkHeader,
    rsp: RejoinResponse,
    now: u64,
) -> (r: Option<NwkNeighbor>)
    requires
        now + spec_default_timeout().spec_duration_ms() <= u64::MAX,
    ensures
        r == (match (hdr.destination_ieee, hdr.source_ieee) {
            (Some(dst), Some(src)) => if dst == self_ext_addr && src == parent_ext_addr && rsp is Success {
                Some(
                    NwkNeighbor::spec_new(
                        NewNwkNeighbour {
                            ext_addr: src,
                            nwk_addr: hdr.source,
                            device_type: DeviceType::Router,
                            rx_on_when_idle: false,
                            relationship: NeighborRelationship::Parent,
                        },
                        now,
                    ),
                )
            } else {
                None
            },
            _ => None,
        }),
{
    let (dst, src) = match (hdr.destination_ieee, hdr.source_ieee) {
        (Some(d), Some(s)) => (d, s),
        _ => return None,
    };
    if dst != self_ext_addr || src != parent_ext_addr {
        return None;
    }
    match rsp {
        RejoinResponse::Success(_) => Some(
            NwkNeighbor::new(
                NewNwkNeighbour {
                    ext_addr: src,
                    nwk_addr: hdr.source,
                    device_type: DeviceType::Router,
                    rx_on_when_idle: false,
                    relationship: NeighborRelationship::Parent,
                },
                now,
            ),
        ),
        _ => None,
    }
}

/// What a router asks to leave: itself, or one of its children.
#[derive(Clone, Copy, Debug, PartialEq, Eq, Structural)]
pub enum RouterLeaveReq {
    RemoveSelf { remove_children: bool, rejoin: bool },
    RemoveChild { ext_addr: ExtendedAddress, remove_children: bool, rejoin: bool },
}

/// Why a leave could not be made.
#[derive(Clone, Copy, Debug, PartialEq, Eq, Structural)]
pub enum NlmeLeaveError {
    InvalidRequest,
    UnknownDevice,
    TransferError(NldeTransferError),
}

/// The leave command a request makes and where it goes: the command
/// (never a request to leave), its destination, and the extended address
/// of a child that is asked to leave.
pub struct LeaveEmissionPlan {
    pub command: Leave,
    pub destination: NwkAddress,
    pub child_ext_addr: Option<ExtendedAddress>,
}

/// The leave an end device makes: it tells the devices whose receivers
/// are on that it leaves, rejoining or not, without children to remove.
pub fn end_device_leave(rejoin: bool) -> (r: LeaveEmissionPlan)
    ensures
        r.command == (Leave { rejoin, request: false, remove_children: false }),
        r.destination == NwkAddress(BROADCAST_RX_ON_IDLE),
        r.child_ext_addr is None,
{
    LeaveEmissionPlan {
        command: Leave { rejoin, request: false, remove_children: false },
        destination: NwkAddress(BROADCAST_RX_ON_IDLE),
        child_ext_addr: None,
    }
}

/// The leave a router makes. Leaving itself, it tells every device; a
/// child is told at its short address, found as that of the first child
/// with its extended address, or the request fails with `UnknownDevice`.
pub fn router_leave(children: &NeighborTable, req: RouterLeaveReq) -> (r: Result<LeaveEmissionPlan, NlmeLeaveError>)
    ensures
        match req {
            RouterLeaveReq::RemoveSelf { remove_children, rejoin } => r matches Ok(p) && p.command == (Leave {
                request: false,
                rejoin,
                remove_children,
            }) && p.destination == NwkAddress(0xffff) && p.child_ext_addr is None,
            RouterLeaveReq::RemoveChild { ext_addr, remove_children, rejoin } => match spec_find(
                children.children@,
                has_ext(ext_addr),
            ) {
                Some(nb) => r matches Ok(p) && p.command == (Leave { request: false, rejoin, remove_children })
                    && p.destination == nb.nwk_addr && p.child_ext_addr == Some(ext_addr),
                None => r == Err::<LeaveEmissionPlan, NlmeLeaveError>(NlmeLeaveError::UnknownDevice),
            },
        },
{
    match req {
        RouterLeaveReq::RemoveSelf { remove_children, rejoin } => Ok(
            LeaveEmissionPlan {
                command: Leave { request: false, rejoin, remove_children },
                destination: NwkAddress(0xffff),
                child_ext_addr: None,
            },
        ),
        RouterLeaveReq::RemoveChild { ext_addr, remove_children, rejoin } => {
            let found = children.find_by_ext_addr(ext_addr);
            proof {
                lemma_finds_spec_find(children.children@, has_ext(ext_addr), found);
            }
            match found {
                Some(i) => Ok(
                    LeaveEmissionPlan {
                        command: Leave { request: false, rejoin, remove_children },
                        destination: children.children.get(i).nwk_addr,
                        child_ext_addr: Some(ext_addr),
                    },
                ),
                None => Err(NlmeLeaveError::UnknownDevice),
            }
        },
    }
}

/// `mask` with only the channels of `supported` (see
/// [`ChannelMask::intersect_with`]).
pub open spec fn spec_intersection(mask: ChannelMask, supported: ChannelMask) -> ChannelMask {
    if mask.spec_page() != supported.spec_page() {
        ChannelMask(0)
    } else {
        ChannelMask(mask.0 & supported.0)
    }
}

/// Whether a mask names a channel or a page.
pub open spec fn not_empty_mask() -> spec_fn(ChannelMask) -> bool {
    |m: ChannelMask| m.0 != 0
}

/// The masks to scan: each of `masks` with only the channels of
/// `supported`, in order, leaving out those that are left empty.
pub open spec fn spec_intersections(masks: Seq<ChannelMask>, supported: ChannelMask) -> Seq<ChannelMask> {
    Seq::new(masks.len(), |i: int| spec_intersection(masks[i], supported)).filter(not_empty_mask())
}

/// The masks to scan for the channel masks asked for, given the channels
/// the radio supports (see [`spec_intersections`]); none at all is an error.
pub fn get_intersections(channel_masks: &[ChannelMask], supported: ChannelMask) -> (r: Result<
    Vec<ChannelMask, 32>,
    (),
>)
    requires
        supported.spec_has_valid_page(),
        forall|i: int| 0 <= i < channel_masks@.len() ==> #[trigger] channel_masks@[i].spec_has_valid_page(),
        spec_intersections(channel_masks@, supported).len() <= 32,
    ensures
        match r {
            Ok(v) => v@ == spec_intersections(channel_masks@, supported) && v@.len() > 0,
            Err(_) => spec_intersections(channel_masks@, supported).len() == 0,
        },
{
    let ghost mapped = Seq::new(
        channel_masks@.len(),
        |i: int| spec_intersection(channel_masks@[i], supported),
    );
    let mut out: Vec<ChannelMask, 32> = Vec::new();
    let n = channel_masks.len();
    let mut i: usize = 0;
    proof {
        assert(mapped.subrange(0, 0) =~= Seq::<ChannelMask>::empty());
        assert(Seq::<ChannelMask>::empty().filter(not_empty_mask()) =~= Seq::<ChannelMask>::empty());
    }
    while i < n
        invariant
            n == channel_masks@.len(),
            i <= n,
            mapped == Seq::new(
                channel_masks@.len(),
                |i: int| spec_intersection(channel_masks@[i], supported),
            ),
            supported.spec_has_valid_page(),
            forall|j: int| 0 <= j < channel_masks@.len() ==> #[trigger] channel_masks@[j].spec_has_valid_page(),
            mapped.filter(not_empty_mask()).len() <= 32,
            out@ == mapped.subrange(0, i as int).filter(not_empty_mask()),
        decreases n - i,
    {
        let m = channel_masks[i].intersect_with(supported);
        proof {
            lemma_filter_step(mapped, not_empty_mask(), i as int);
            mapped.lemma_filter_take_len(not_empty_mask(), i as int + 1);
            assert(mapped.take(i as int + 1) =~= mapped.subrange(0, i as int + 1));
        }
        if m.0 != 0 {
            let pushed = out.push(m);
            assert(pushed is Ok);
        }
        i = i + 1;
    }
    proof {
        assert(mapped.subrange(0, n as int) =~= mapped);
    }
    if out.is_empty() {
        return Err(());
    }
    Ok(out)
}

} // verus!
