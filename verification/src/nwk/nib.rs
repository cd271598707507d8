//! The network information base: neighbors, routes, address map, records of
//! broadcasts seen. Instants are milliseconds since start-up.
use vstd::prelude::*;

use crate::collections::{entries_get, keys_unique, lemma_filter_step, HashMap, MapKey, Vec};
use crate::common::{DeviceType, ExtendedAddress, Key, NwkAddress, PanId};
use crate::mac::Channel;
use crate::nwk::commands::{DeviceTimeout, LinkCost};

verus! {

/// The state of a route.
#[derive(Clone, Copy, Debug, PartialEq, Eq, Structural)]
pub enum RouteStatus {
    Active,
    DiscoveryUnderway,
    DiscoveryFailed,
    Inactive,
    ValidationUnderway,
}

impl Default for RouteStatus {
    fn default() -> (r: Self)
        ensures
            r == RouteStatus::DiscoveryUnderway,
    {
        RouteStatus::DiscoveryUnderway
    }
}

/// A routing table entry.
#[derive(Clone, Copy, Debug, PartialEq, Eq, Structural)]
pub struct NwkRoute {
    pub dst_addr: NwkAddress,
    pub status: RouteStatus,
    pub no_route_cache: bool,
    pub many_to_one: bool,
    pub route_record_required: bool,
    pub group_id: bool,
    pub next_hop_addr: NwkAddress,
}

/// A route discovery in progress.
#[derive(Clone, Copy, Debug, PartialEq, Eq, Structural)]
pub struct NwkRouteDiscovery {
    pub route_request_id: u8,
    pub originator_addr: NwkAddress,
    pub sender_addr: NwkAddress,
    pub forward_cost: u8,
    pub residual_cost: u8,
    pub expiration_time: u64,
}

/// A broadcast seen, kept until it expires.
#[derive(Clone, Copy, Debug, PartialEq, Eq, Structural)]
pub struct TransactionRecord {
    pub source_address: NwkAddress,
    pub sequence_number: u8,
    pub expiration_time: u64,
}

/// The relays on the way to a concentrator.
pub struct RouteRecord {
    pub network_address: NwkAddress,
    pub relay_count: u8,
    pub path: Vec<NwkAddress, 16>,
}

#[derive(Clone, Copy, Debug, PartialEq, Eq, Structural)]
pub enum NetworkKeyType {
    Standard,
}

/// The last frame counter seen from a sender.
#[derive(Clone, Copy, Debug, PartialEq, Eq, Structural)]
pub struct IncomingFrameCounterDescriptor {
    pub sender_address: ExtendedAddress,
    pub incoming_frame_counter: u32,
}

/// How a neighbor stands to this device.
#[derive(Clone, Copy, Debug, PartialEq, Eq, Structural)]
pub enum NeighborRelationship {
    Parent,
    Child,
    Sibling,
    Other,
    PreviousChild,
    UnauthenticatedChild,
}

impl Default for NeighborRelationship {
    fn default() -> (r: Self)
        ensures
            r == NeighborRelationship::Other,
    {
        NeighborRelationship::Other
    }
}

/// What a beacon told of a neighbor that could be joined.
#[derive(Clone, Copy, Debug, PartialEq, Eq, Structural)]
pub struct NwkNeighborJoinData {
    pub extended_pan_id: ExtendedAddress,
    pub pan_id: PanId,
    pub logical_channel: Channel,
    pub depth: u8,
    pub beacon_order: u8,
    pub permit_joining: bool,
    pub potential_parent: bool,
}

/// A neighbor table entry.
#[derive(Clone, Copy, Debug, PartialEq, Eq, Structural)]
pub struct NwkNeighbor {
    pub ext_addr: Option<ExtendedAddress>,
    pub nwk_addr: NwkAddress,
    pub device_type: DeviceType,
    pub end_device_configuration: u16,
    pub device_timeout: DeviceTimeout,
    pub relationship: NeighborRelationship,
    pub rx_on_when_idle: bool,
    pub transmit_failure: u8,
    pub incoming_cost: LinkCost,
    pub outgoing_cost: LinkCost,
    pub expiration: u64,
    pub keepalive_received: bool,
    pub join_data: Option<NwkNeighborJoinData>,
}

/// What is needed to add a neighbor.
#[derive(Clone, Copy, Debug, PartialEq, Eq, Structural)]
pub struct NewNwkNeighbour {
    pub ext_addr: ExtendedAddress,
    pub nwk_addr: NwkAddress,
    pub device_type: DeviceType,
    pub rx_on_when_idle: bool,
    pub relationship: NeighborRelationship,
}

/// The timeout a new child gets (256 minutes).
pub open spec fn spec_default_timeout() -> DeviceTimeout {
    DeviceTimeout::Mins256
}

pub fn nwk_end_device_timeout_default() -> (r: DeviceTimeout)
    ensures
        r == spec_default_timeout(),
{
    DeviceTimeout::Mins256
}

impl NwkNeighbor {
    /// The neighbor an entry with nothing known stands for, at `now`.
    pub open spec fn spec_default(now: u64) -> NwkNeighbor {
        NwkNeighbor {
            ext_addr: None,
            nwk_addr: NwkAddress(0xffff),
            device_type: DeviceType::EndDevice,
            end_device_configuration: 0,
            device_timeout: DeviceTimeout::Secs10,
            relationship: NeighborRelationship::Other,
            rx_on_when_idle: false,
            transmit_failure: 0,
            incoming_cost: LinkCost::Unknown,
            outgoing_cost: LinkCost::Unknown,
            expiration: now,
            keepalive_received: false,
            join_data: None,
        }
    }

    pub fn default_at(now: u64) -> (r: NwkNeighbor)
        ensures
            r == NwkNeighbor::spec_default(now),
    {
        NwkNeighbor {
            ext_addr: None,
            nwk_addr: NwkAddress(0xffff),
            device_type: DeviceType::EndDevice,
            end_device_configuration: 0,
            device_timeout: DeviceTimeout::Secs10,
            relationship: NeighborRelationship::Other,
            rx_on_when_idle: false,
            transmit_failure: 0,
            incoming_cost: LinkCost::Unknown,
            outgoing_cost: LinkCost::Unknown,
            expiration: now,
            keepalive_received: false,
            join_data: None,
        }
    }

    /// A new neighbor with the default timeout, which runs out 256 minutes
    /// after `now`.
    pub open spec fn spec_new(n: NewNwkNeighbour, now: u64) -> NwkNeighbor {
        NwkNeighbor {
            ext_addr: Some(n.ext_addr),
            nwk_addr: n.nwk_addr,
            device_type: n.device_type,
            rx_on_when_idle: n.rx_on_when_idle,
            device_timeout: spec_default_timeout(),
            relationship: n.relationship,
            expiration: (now + spec_default_timeout().spec_duration_ms()) as u64,
            ..NwkNeighbor::spec_default(now)
        }
    }

    pub fn new(neighbor: NewNwkNeighbour, now: u64) -> (r: NwkNeighbor)
        requires
            now + spec_default_timeout().spec_duration_ms() <= u64::MAX,
        ensures
            r == NwkNeighbor::spec_new(neighbor, now),
    {
        let timeout = nwk_end_device_timeout_default();
        let d = timeout.get_duration_ms();
        NwkNeighbor {
            ext_addr: Some(neighbor.ext_addr),
            nwk_addr: neighbor.nwk_addr,
            device_type: neighbor.device_type,
            rx_on_when_idle: neighbor.rx_on_when_idle,
            device_timeout: timeout,
            relationship: neighbor.relationship,
            expiration: now + d,
            ..NwkNeighbor::default_at(now)
        }
    }

    pub fn is_child(&self) -> (r: bool)
        ensures
            r == (self.relationship == NeighborRelationship::Child),
    {
        self.relationship == NeighborRelationship::Child
    }

    pub fn is_parent(&self) -> (r: bool)
        ensures
            r == (self.relationship == NeighborRelationship::Parent),
    {
        self.relationship == NeighborRelationship::Parent
    }

    pub fn is_end_device(&self) -> (r: bool)
        ensures
            r == (self.device_type == DeviceType::EndDevice),
    {
        self.device_type == DeviceType::EndDevice
    }

    pub fn is_router(&self) -> (r: bool)
        ensures
            r == (self.device_type == DeviceType::Router || self.device_type
                == DeviceType::Coordinator),
    {
        self.device_type == DeviceType::Router || self.device_type == DeviceType::Coordinator
    }
}

pub const NEIGHBOR_TABLE_MAX_ENTRIES: usize = 32;

/// The first index at which `pred` holds, if any.
pub open spec fn first_index<T>(s: Seq<T>, pred: spec_fn(T) -> bool, i: int) -> bool {
    0 <= i < s.len() && pred(s[i]) && forall|j: int| 0 <= j < i ==> !pred(#[trigger] s[j])
}

pub open spec fn none_matches<T>(s: Seq<T>, pred: spec_fn(T) -> bool) -> bool {
    forall|j: int| 0 <= j < s.len() ==> !pred(#[trigger] s[j])
}

pub open spec fn has_ext(a: ExtendedAddress) -> spec_fn(NwkNeighbor) -> bool {
    |nb: NwkNeighbor| nb.ext_addr == Some(a)
}

pub open spec fn has_ext_and_type(a: ExtendedAddress, t: DeviceType) -> spec_fn(NwkNeighbor) -> bool {
    |nb: NwkNeighbor| nb.ext_addr == Some(a) && nb.device_type == t
}

pub open spec fn has_short(a: NwkAddress) -> spec_fn(NwkNeighbor) -> bool {
    |nb: NwkNeighbor| nb.nwk_addr == a
}

pub open spec fn has_short_and_type(a: NwkAddress, t: DeviceType) -> spec_fn(NwkNeighbor) -> bool {
    |nb: NwkNeighbor| nb.nwk_addr == a && nb.device_type == t
}

/// Entries with another short address than `a`.
pub open spec fn lacks_short(a: NwkAddress) -> spec_fn(NwkNeighbor) -> bool {
    |nb: NwkNeighbor| nb.nwk_addr != a
}

/// Entries with another extended address than `a`, or none.
pub open spec fn lacks_ext(a: ExtendedAddress) -> spec_fn(NwkNeighbor) -> bool {
    |nb: NwkNeighbor| nb.ext_addr != Some(a)
}

/// The first item for which `pred` holds, if any.
pub open spec fn spec_find<T>(s: Seq<T>, pred: spec_fn(T) -> bool) -> Option<T> {
    if exists|i: int| first_index(s, pred, i) {
        Some(s[choose|i: int| first_index(s, pred, i)])
    } else {
        None
    }
}

/// A search result in the sense of [`finds`] gives the item [`spec_find`] names.
pub proof fn lemma_finds_spec_find<T>(s: Seq<T>, pred: spec_fn(T) -> bool, r: Option<usize>)
    requires
        finds(s, pred, r),
    ensures
        spec_find(s, pred) == (match r {
            Some(i) => Some(s[i as int]),
            None => None::<T>,
        }),
{
    match r {
        Some(i) => {
            let j = choose|j: int| first_index(s, pred, j);
            assert(first_index(s, pred, i as int));
            if j < i {
                assert(!pred(s[j]));
            } else if i < j {
                assert(!pred(s[i as int]));
            }
        },
        None => {
            assert forall|j: int| !first_index(s, pred, j) by {
                if first_index(s, pred, j) {
                    assert(!pred(s[j]));
                }
            }
        },
    }
}

/// Entries that have not expired at `now`.
pub open spec fn alive_at(now: u64) -> spec_fn(NwkNeighbor) -> bool {
    |nb: NwkNeighbor| nb.expiration > now
}

/// The parent and the other neighbors ("children").
pub struct NeighborTable {
    pub parent: NwkNeighbor,
    pub children: Vec<NwkNeighbor, NEIGHBOR_TABLE_MAX_ENTRIES>,
}

/// The search result the finders of [`NeighborTable`] return: the first
/// index that matches, or none.
pub open spec fn finds<T>(s: Seq<T>, pred: spec_fn(T) -> bool, r: Option<usize>) -> bool {
    match r {
        Some(i) => first_index(s, pred, i as int),
        None => none_matches(s, pred),
    }
}

/// Keeps the items for which `pred` holds, in order.
pub open spec fn keep<T>(s: Seq<T>, pred: spec_fn(T) -> bool) -> Seq<T> {
    s.filter(pred)
}

impl NeighborTable {
    pub fn new(parent: NwkNeighbor) -> (r: NeighborTable)
        ensures
            r.parent == parent,
            r.children@ == Seq::<NwkNeighbor>::empty(),
    {
        NeighborTable { parent, children: Vec::new() }
    }

    /// Drops the children that have expired at `now`.
    pub fn cleanup(&mut self, now: u64)
        ensures
            final(self).parent == old(self).parent,
            final(self).children@ == old(self).children@.filter(alive_at(now)),
    {
        let ghost pred = alive_at(now);
        let ghost s = self.children@;
        let mut kept: Vec<NwkNeighbor, NEIGHBOR_TABLE_MAX_ENTRIES> = Vec::new();
        let n = self.children.len();
        let mut i: usize = 0;
        proof {
            reveal_with_fuel(Seq::filter, 1);
            assert(s.subrange(0, 0) =~= Seq::<NwkNeighbor>::empty());
        }
        while i < n
            invariant
                n == s.len(),
                n <= NEIGHBOR_TABLE_MAX_ENTRIES,
                s == self.children@,
                i <= n,
                kept@ == s.subrange(0, i as int).filter(pred),
                kept@.len() <= i,
                pred == alive_at(now),
            decreases n - i,
        {
            let nb = *self.children.get(i);
            proof {
                lemma_filter_step(s, pred, i as int);
                assert(pred(s[i as int]) == (nb.expiration > now));
            }
            if nb.expiration > now {
                let _ = kept.push(nb);
            }
            i = i + 1;
        }
        proof {
            assert(s.subrange(0, n as int) =~= s);
        }
        self.children = kept;
    }

    /// Drops the children with the short address `addr`.
    pub fn remove_by_short_addr(&mut self, addr: NwkAddress)
        ensures
            final(self).parent == old(self).parent,
            final(self).children@ == old(self).children@.filter(lacks_short(addr)),
    {
        let ghost pred = lacks_short(addr);
        let ghost s = self.children@;
        let mut kept: Vec<NwkNeighbor, NEIGHBOR_TABLE_MAX_ENTRIES> = Vec::new();
        let n = self.children.len();
        let mut i: usize = 0;
        proof {
            assert(s.subrange(0, 0) =~= Seq::<NwkNeighbor>::empty());
            reveal_with_fuel(Seq::filter, 1);
        }
        while i < n
            invariant
                n == s.len(),
                n <= NEIGHBOR_TABLE_MAX_ENTRIES,
                s == self.children@,
                i <= n,
                kept@ == s.subrange(0, i as int).filter(pred),
                kept@.len() <= i,
                pred == lacks_short(addr),
            decreases n - i,
        {
            let nb = *self.children.get(i);
            proof {
                lemma_filter_step(s, pred, i as int);
                assert(pred(s[i as int]) == (nb.nwk_addr != addr));
            }
            if nb.nwk_addr != addr {
                let _ = kept.push(nb);
            }
            i = i + 1;
        }
        proof {
            assert(s.subrange(0, n as int) =~= s);
        }
        self.children = kept;
    }

    /// Drops the children with the extended address `addr`.
    pub fn remove_by_ext_addr(&mut self, addr: ExtendedAddress)
        ensures
            final(self).parent == old(self).parent,
            final(self).children@ == old(self).children@.filter(lacks_ext(addr)),
    {
        let ghost pred = lacks_ext(addr);
        let ghost s = self.children@;
        let mut kept: Vec<NwkNeighbor, NEIGHBOR_TABLE_MAX_ENTRIES> = Vec::new();
        let n = self.children.len();
        let mut i: usize = 0;
        proof {
            assert(s.subrange(0, 0) =~= Seq::<NwkNeighbor>::empty());
            reveal_with_fuel(Seq::filter, 1);
        }
        while i < n
            invariant
                n == s.len(),
                n <= NEIGHBOR_TABLE_MAX_ENTRIES,
                s == self.children@,
                i <= n,
                kept@ == s.subrange(0, i as int).filter(pred),
                kept@.len() <= i,
                pred == lacks_ext(addr),
            decreases n - i,
        {
            let nb = *self.children.get(i);
            proof {
                lemma_filter_step(s, pred, i as int);
                assert(pred(s[i as int]) == (nb.ext_addr != Some(addr)));
            }
            if nb.ext_addr != Some(addr) {
                let _ = kept.push(nb);
            }
            i = i + 1;
        }
        proof {
            assert(s.subrange(0, n as int) =~= s);
        }
        self.children = kept;
    }

    /// The first child with the extended address `addr`.
    pub fn find_by_ext_addr(&self, addr: ExtendedAddress) -> (r: Option<usize>)
        ensures
            finds(self.children@, has_ext(addr), r),
    {
        let n = self.children.len();
        let mut i: usize = 0;
        while i < n
            invariant
                n == self.children@.len(),
                i <= n,
                forall|j: int| 0 <= j < i ==> !has_ext(addr)(#[trigger] self.children@[j]),
            decreases n - i,
        {
            if self.children.get(i).ext_addr == Some(addr) {
                return Some(i);
            }
            i = i + 1;
        }
        None
    }

    /// The first child with the extended address `addr` and the device type `type_`.
    pub fn find_by_ext_addr_and_type(&self, addr: ExtendedAddress, type_: DeviceType) -> (r: Option<
        usize,
    >)
        ensures
            finds(self.children@, has_ext_and_type(addr, type_), r),
    {
        let n = self.children.len();
        let mut i: usize = 0;
        while i < n
            invariant
                n == self.children@.len(),
                i <= n,
                forall|j: int|
                    0 <= j < i ==> !has_ext_and_type(addr, type_)(#[trigger] self.children@[j]),
            decreases n - i,
        {
            let nb = self.children.get(i);
            if nb.ext_addr == Some(addr) && type_ == nb.device_type {
                return Some(i);
            }
            i = i + 1;
        }
        None
    }

    /// The first child with the short address `addr`.
    pub fn find_by_short_addr(&self, addr: NwkAddress) -> (r: Option<usize>)
        ensures
            finds(self.children@, has_short(addr), r),
    {
        let n = self.children.len();
        let mut i: usize = 0;
        while i < n
            invariant
                n == self.children@.len(),
                i <= n,
                forall|j: int| 0 <= j < i ==> !has_short(addr)(#[trigger] self.children@[j]),
            decreases n - i,
        {
            if self.children.get(i).nwk_addr == addr {
                return Some(i);
            }
            i = i + 1;
        }
        None
    }

    /// The first child with the short address `addr` and the device type `device_type`.
    pub fn find_by_short_addr_and_device_type(
        &self,
        addr: NwkAddress,
        device_type: DeviceType,
    ) -> (r: Option<usize>)
        ensures
            finds(self.children@, has_short_and_type(addr, device_type), r),
    {
        let n = self.children.len();
        let mut i: usize = 0;
        while i < n
            invariant
                n == self.children@.len(),
                i <= n,
                forall|j: int|
                    0 <= j < i ==> !has_short_and_type(addr, device_type)(
                        #[trigger] self.children@[j],
                    ),
            decreases n - i,
        {
            let nb = self.children.get(i);
            if nb.nwk_addr == addr && nb.device_type == device_type {
                return Some(i);
            }
            i = i + 1;
        }
        None
    }
}

impl MapKey for NwkAddress {
    fn same_key(&self, other: &Self) -> (r: bool) {
        self.0 == other.0
    }
}

/// Entries of an address map that hold `a`.
pub open spec fn stores_ext(a: ExtendedAddress) -> spec_fn((NwkAddress, ExtendedAddress)) -> bool {
    |e: (NwkAddress, ExtendedAddress)| e.1 == a
}

/// The entries of an address map after `ext` was stored for `nwk`: a
/// full map without `nwk` is left as it is.
pub open spec fn spec_addr_map_after(m: AddressMap, nwk: NwkAddress, ext: ExtendedAddress) -> Seq<(NwkAddress, ExtendedAddress)> {
    if m.map.spec_has(nwk) || m.map.entries().len() < 64 {
        m.map.spec_put(nwk, ext)
    } else {
        m.map.entries()
    }
}

/// Noting a source in the address map: where the short address is there or
/// there is room, it then gives the extended address noted, and every other
/// short address gives what it gave; a full map that lacks it stays as it
/// was.
pub proof fn lemma_addr_map_after(m: AddressMap, nwk: NwkAddress, ext: ExtendedAddress, other: NwkAddress)
    requires
        keys_unique(m.map.entries()),
    ensures
        (m.map.spec_has(nwk) || m.map.entries().len() < 64) ==> entries_get(spec_addr_map_after(m, nwk, ext), nwk)
            == Some(ext),
        other != nwk ==> entries_get(spec_addr_map_after(m, nwk, ext), other) == entries_get(m.map.entries(), other),
        !(m.map.spec_has(nwk) || m.map.entries().len() < 64) ==> spec_addr_map_after(m, nwk, ext) == m.map.entries(),
{
    crate::collections::lemma_entries_put_get(m.map.entries(), nwk, ext, other);
}

/// Short addresses and the extended addresses they were seen with (64 at most).
pub struct AddressMap {
    pub map: HashMap<NwkAddress, ExtendedAddress, 64>,
}

impl AddressMap {
    pub fn new() -> (r: AddressMap)
        ensures
            r.map.entries() == Seq::<(NwkAddress, ExtendedAddress)>::empty(),
    {
        AddressMap { map: HashMap::new() }
    }

    /// The extended address stored for `addr`.
    pub fn find_ext_addr(&self, addr: &NwkAddress) -> (r: Option<ExtendedAddress>)
        ensures
            r == self.map.spec_get(*addr),
            r matches Some(e) ==> exists|i: int|
                0 <= i < self.map.entries().len() && self.map.entries()[i] == (*addr, e),
            r is None ==> forall|i: int|
                0 <= i < self.map.entries().len() ==> self.map.entries()[i].0 != *addr,
    {
        match self.map.get(addr) {
            Some(e) => Some(*e),
            None => None,
        }
    }

    /// The first short address stored with `addr`.
    pub fn find_nwk_addr(&self, addr: &ExtendedAddress) -> (r: Option<NwkAddress>)
        ensures
            r == (match spec_find(self.map.entries(), stores_ext(*addr)) {
                Some(e) => Some(e.0),
                None => None::<NwkAddress>,
            }),
    {
        let n = self.map.len();
        let mut i: usize = 0;
        while i < n
            invariant
                n == self.map.entries().len(),
                i <= n,
                forall|j: int| 0 <= j < i ==> !stores_ext(*addr)(#[trigger] self.map.entries()[j]),
            decreases n - i,
        {
            let e = self.map.entry_at(i);
            if e.1 == *addr {
                proof {
                    assert(finds(self.map.entries(), stores_ext(*addr), Some(i)));
                    lemma_finds_spec_find(self.map.entries(), stores_ext(*addr), Some(i));
                }
                return Some(e.0);
            }
            i = i + 1;
        }
        proof {
            lemma_finds_spec_find(self.map.entries(), stores_ext(*addr), None);
        }
        None
    }

    /// Stores `ext` for `nwk`; a full map is left as it is.
    pub fn insert(&mut self, nwk: NwkAddress, ext: ExtendedAddress)
        ensures
            final(self).map.entries() == spec_addr_map_after(*old(self), nwk, ext),
            (old(self).map.spec_has(nwk) || old(self).map.entries().len() < 64) ==> final(self).map.spec_get(nwk) == Some(ext),
            forall|a: NwkAddress| a != nwk ==> #[trigger] final(self).map.spec_get(a) == old(self).map.spec_get(a),
            ({
                let e = old(self).map.entries();
                if exists|i: int| 0 <= i < e.len() && e[i].0 == nwk {
                    exists|i: int|
                        0 <= i < e.len() && e[i].0 == nwk && final(self).map.entries() == e.update(
                            i,
                            (nwk, ext),
                        )
                } else if e.len() < 64 {
                    final(self).map.entries() == e.push((nwk, ext))
                } else {
                    final(self).map.entries() == e
                }
            }),
    {
        let _ = self.map.insert(nwk, ext);
    }
}

/// The material of a network key.
pub struct NetworkSecurityMaterialDescriptor {
    pub key_seq_number: u8,
    pub outgoing_frame_counter: u32,
    pub incoming_frame_counter_set: Vec<IncomingFrameCounterDescriptor, 32>,
    pub key: Key,
    pub network_key_type: NetworkKeyType,
}

/// Up to four network keys.
pub struct NetworkSecurityMaterialDescriptorSet(pub Vec<NetworkSecurityMaterialDescriptor, 4>);

pub const BROADCAST_TRANSACTION_TABLE_SIZE: usize = 64;

/// The broadcasts seen and not yet expired.
pub type BroadcastTransactionTable = Vec<TransactionRecord, BROADCAST_TRANSACTION_TABLE_SIZE>;

pub type RouteRecordTable = Vec<RouteRecord, 64>;

} // verus!
