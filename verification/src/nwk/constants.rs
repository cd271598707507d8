//! Constants of the network layer. Durations are in milliseconds.
use vstd::prelude::*;

verus! {

/// The network address of the coordinator.
pub const NWK_COORDINATOR_ADDRESS: u16 = 0x0000;

pub const MIN_HEADER_OVERHEAD: usize = 8;

pub const PROTOCOL_VERSION: u8 = 0x2;

pub const WAIT_BEFORE_VALIDATION_MS: u64 = 0x500;

pub const ROUTE_DISCOVERY_TIME_MS: u64 = 0x2710;

pub const MAX_BROADCAST_JITTER_OCTETS: u64 = 0x7d0;

pub const INITIAL_ROUTE_REQUEST_RETRIES: u8 = 3;

pub const ROUTE_REQUEST_RETRIES: u8 = 2;

pub const ROUTE_REQUEST_RETRY_INTERVAL_MS: u64 = 0xfe;

pub const MIN_ROUTE_REQUEST_JITTER_MS: u64 = 2;

pub const MAX_ROUTE_REQUEST_JITTER_MS: u64 = 128;

pub const MAC_FRAME_OVERHEAD: u8 = 0x0b;

/// The largest NWK payload: the MAC payload less the smallest header.
pub const MAX_NWK_PAYLOAD_SIZE: usize = 108;

pub const NWK_MAX_SOURCE_ROUTE: u8 = 0x0c;

pub const NWK_USE_MULTICAST: bool = true;

/// Seconds between two link status commands.
pub const NWK_LINK_STATUS_PERIOD: u8 = 0x0f;

/// Link status periods after which a silent router neighbor ages out.
pub const NWK_ROUTER_AGE_LIMIT: u8 = 3;

pub const NWK_LEAVE_REQUEST_ALLOWED: bool = true;

pub const NWK_LEAVE_REQUEST_WITHOUT_REJOIN_ALLOWED: bool = true;

} // verus!
