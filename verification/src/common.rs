//! Addresses and identifiers shared by every layer of the stack.
use vstd::prelude::*;

use crate::mac::MacDeviceType;

verus! {

/// A 128-bit network or link key.
pub type Key = [u8; 16];

/// The role a device plays in a Zigbee network.
#[derive(Clone, Copy, Debug, PartialEq, Eq, Structural)]
pub enum DeviceType {
    Coordinator,
    Router,
    EndDevice,
}

impl DeviceType {
    /// The value that stands for the device type on the wire.
    pub open spec fn spec_to_u8(self) -> u8 {
        match self {
            DeviceType::Coordinator => 0x00,
            DeviceType::Router => 0x01,
            DeviceType::EndDevice => 0x02,
        }
    }

    pub open spec fn spec_from_u8(v: u8) -> Option<DeviceType> {
        if v == 0x00 {
            Some(DeviceType::Coordinator)
        } else if v == 0x01 {
            Some(DeviceType::Router)
        } else if v == 0x02 {
            Some(DeviceType::EndDevice)
        } else {
            None
        }
    }

    pub fn to_u8(&self) -> (r: u8)
        ensures
            r == self.spec_to_u8(),
    {
        match self {
            DeviceType::Coordinator => 0x00,
            DeviceType::Router => 0x01,
            DeviceType::EndDevice => 0x02,
        }
    }

    pub fn from_u8(v: u8) -> (r: Option<DeviceType>)
        ensures
            r == DeviceType::spec_from_u8(v),
    {
        if v == 0x00 {
            Some(DeviceType::Coordinator)
        } else if v == 0x01 {
            Some(DeviceType::Router)
        } else if v == 0x02 {
            Some(DeviceType::EndDevice)
        } else {
            None
        }
    }

    /// The device type of a device with the given MAC capability.
    pub open spec fn spec_from_mac(value: MacDeviceType) -> DeviceType {
        match value {
            MacDeviceType::ReducedFunctionDevice => DeviceType::EndDevice,
            MacDeviceType::FullFunctionDevice => DeviceType::Router,
        }
    }
}

impl From<MacDeviceType> for DeviceType {
    /// A reduced-function device is an end device, a full-function one a
    /// router.
    fn from(value: MacDeviceType) -> (r: DeviceType) {
        match value {
            MacDeviceType::ReducedFunctionDevice => DeviceType::EndDevice,
            MacDeviceType::FullFunctionDevice => DeviceType::Router,
        }
    }
}

impl vstd::std_specs::convert::FromSpecImpl<MacDeviceType> for DeviceType {
    open spec fn obeys_from_spec() -> bool {
        true
    }

    open spec fn from_spec(value: MacDeviceType) -> DeviceType {
        DeviceType::spec_from_mac(value)
    }
}

impl Default for DeviceType {
    fn default() -> (r: Self)
        ensures
            r == DeviceType::EndDevice,
    {
        DeviceType::EndDevice
    }
}

/// A 16-bit PAN identifier.
#[derive(Clone, Copy, Debug, PartialEq, Eq, Hash, Structural)]
pub struct PanId(pub u16);

impl From<u16> for PanId {
    fn from(value: u16) -> (r: PanId) {
        PanId(value)
    }
}

impl vstd::std_specs::convert::FromSpecImpl<u16> for PanId {
    open spec fn obeys_from_spec() -> bool {
        true
    }

    open spec fn from_spec(value: u16) -> PanId {
        PanId(value)
    }
}

impl Default for PanId {
    fn default() -> (r: Self)
        ensures
            r.0 == 0,
    {
        PanId(0)
    }
}

/// A 16-bit network (short) address.
#[derive(Clone, Copy, Debug, PartialEq, Eq, Hash, PartialOrd, Ord, Structural)]
pub struct NwkAddress(pub u16);

/// Every device.
pub const BROADCAST_ALL: u16 = 0xffff;

/// Devices whose receiver is on when idle.
pub const BROADCAST_RX_ON_IDLE: u16 = 0xfffd;

/// Low power routers.
pub const BROADCAST_LOW_POWER: u16 = 0xfffb;

/// Routers and the coordinator.
pub const BROADCAST_ROUTERS: u16 = 0xfffc;

/// The greatest address a single device may hold.
pub const MAX_NON_BROADCAST: u16 = 0xfff6;

impl NwkAddress {
    pub open spec fn spec_is_broadcast(self) -> bool {
        self.0 > 0xfff7
    }

    /// Addresses above `0xfff7` are broadcast addresses.
    pub fn is_broadcast(&self) -> (r: bool)
        ensures
            r == self.spec_is_broadcast(),
    {
        self.0 > 0xfff7
    }

    pub fn is_unicast(&self) -> (r: bool)
        ensures
            r == !self.spec_is_broadcast(),
    {
        !self.is_broadcast()
    }

    pub fn get_value(&self) -> (r: u16)
        ensures
            r == self.0,
    {
        self.0
    }

    pub fn broadcast_all() -> (r: NwkAddress)
        ensures
            r.0 == BROADCAST_ALL,
    {
        NwkAddress(BROADCAST_ALL)
    }

    pub fn broadcast_rx_on_idle() -> (r: NwkAddress)
        ensures
            r.0 == BROADCAST_RX_ON_IDLE,
    {
        NwkAddress(BROADCAST_RX_ON_IDLE)
    }

    pub fn broadcast_routers() -> (r: NwkAddress)
        ensures
            r.0 == BROADCAST_ROUTERS,
    {
        NwkAddress(BROADCAST_ROUTERS)
    }

    pub fn zero() -> (r: NwkAddress)
        ensures
            r.0 == 0,
    {
        NwkAddress(0)
    }
}

impl From<u16> for NwkAddress {
    fn from(value: u16) -> (r: NwkAddress) {
        NwkAddress(value)
    }
}

impl vstd::std_specs::convert::FromSpecImpl<u16> for NwkAddress {
    open spec fn obeys_from_spec() -> bool {
        true
    }

    open spec fn from_spec(value: u16) -> NwkAddress {
        NwkAddress(value)
    }
}

impl Default for NwkAddress {
    fn default() -> (r: Self)
        ensures
            r.0 == 0xffff,
    {
        NwkAddress(0xffff)
    }
}

/// A 64-bit IEEE (extended) address.
#[derive(Clone, Copy, Debug, PartialEq, Eq, Hash, Structural)]
pub struct ExtendedAddress(pub u64);

/// The extended address that stands for "unknown".
pub const EXTENDED_ADDRESS_MAX: u64 = 0xffffffff;

impl ExtendedAddress {
    pub fn new(value: u64) -> (r: Self)
        ensures
            r.0 == value,
    {
        ExtendedAddress(value)
    }

    pub fn get_value(&self) -> (r: u64)
        ensures
            r == self.0,
    {
        self.0
    }
}

impl From<u64> for ExtendedAddress {
    fn from(value: u64) -> (r: ExtendedAddress) {
        ExtendedAddress(value)
    }
}

impl vstd::std_specs::convert::FromSpecImpl<u64> for ExtendedAddress {
    open spec fn obeys_from_spec() -> bool {
        true
    }

    open spec fn from_spec(value: u64) -> ExtendedAddress {
        ExtendedAddress(value)
    }
}

impl Default for ExtendedAddress {
    fn default() -> (r: Self)
        ensures
            r.0 == EXTENDED_ADDRESS_MAX,
    {
        ExtendedAddress(EXTENDED_ADDRESS_MAX)
    }
}

/// The address of a device, short (maybe not known yet) or extended.
#[derive(Debug, Clone, Copy, PartialEq, Eq, Structural)]
pub enum DeviceAddress {
    Short(Option<NwkAddress>),
    Extended(ExtendedAddress),
}

/// A short or an extended address.
#[derive(Debug, Clone, Copy, PartialEq, Eq, Structural)]
pub enum Address {
    Short(NwkAddress),
    Extended(ExtendedAddress),
}

impl From<NwkAddress> for Address {
    fn from(value: NwkAddress) -> (r: Address) {
        Address::Short(value)
    }
}

impl vstd::std_specs::convert::FromSpecImpl<NwkAddress> for Address {
    open spec fn obeys_from_spec() -> bool {
        true
    }

    open spec fn from_spec(value: NwkAddress) -> Address {
        Address::Short(value)
    }
}

impl From<ExtendedAddress> for Address {
    fn from(value: ExtendedAddress) -> (r: Address) {
        Address::Extended(value)
    }
}

impl vstd::std_specs::convert::FromSpecImpl<ExtendedAddress> for Address {
    open spec fn obeys_from_spec() -> bool {
        true
    }

    open spec fn from_spec(value: ExtendedAddress) -> Address {
        Address::Extended(value)
    }
}

} // verus!
