//! MAC-level types: addresses with their PAN, channels, channel masks and
//! the capability information a device announces when it joins.
use vstd::prelude::*;

use crate::common::{ExtendedAddress, NwkAddress, PanId};

verus! {

/// A MAC address: a PAN and a short or an extended address.
#[derive(Debug, Clone, Copy, PartialEq, Eq, Structural)]
pub enum MacAddress {
    Short(PanId, NwkAddress),
    Extended(PanId, ExtendedAddress),
}

impl MacAddress {
    /// Only a short broadcast address is a broadcast.
    pub fn is_broadcast(&self) -> (r: bool)
        ensures
            r == (match *self {
                MacAddress::Short(_, addr) => addr.spec_is_broadcast(),
                MacAddress::Extended(_, _) => false,
            }),
    {
        match self {
            MacAddress::Short(_, addr) => addr.is_broadcast(),
            MacAddress::Extended(_, _) => false,
        }
    }

    pub fn pan_id(&self) -> (r: PanId)
        ensures
            r == (match *self {
                MacAddress::Short(pan_id, _) => pan_id,
                MacAddress::Extended(pan_id, _) => pan_id,
            }),
    {
        match *self {
            MacAddress::Short(pan_id, _) => pan_id,
            MacAddress::Extended(pan_id, _) => pan_id,
        }
    }
}

/// Whether a device is a full or a reduced function device.
#[derive(Debug, Eq, PartialEq, Clone, Copy, Structural)]
pub enum MacDeviceType {
    ReducedFunctionDevice,
    FullFunctionDevice,
}

impl Default for MacDeviceType {
    fn default() -> (r: Self)
        ensures
            r == MacDeviceType::ReducedFunctionDevice,
    {
        MacDeviceType::ReducedFunctionDevice
    }
}

/// The power source a device announces.
#[derive(Debug, Eq, PartialEq, Clone, Copy, Structural)]
pub enum MacCurrentSource {
    Other,
    Mains,
}

impl Default for MacCurrentSource {
    fn default() -> (r: Self)
        ensures
            r == MacCurrentSource::Mains,
    {
        MacCurrentSource::Mains
    }
}

/// A channel page.
#[derive(Debug, Clone, Copy, PartialEq, Eq, Structural)]
pub enum ChannelPage {
    ChannelPage0,
    ChannelPage1,
    ChannelPage2,
}

impl ChannelPage {
    pub open spec fn spec_index(self) -> u32 {
        match self {
            ChannelPage::ChannelPage0 => 0,
            ChannelPage::ChannelPage1 => 1,
            ChannelPage::ChannelPage2 => 2,
        }
    }

    pub fn index(&self) -> (r: u32)
        ensures
            r == self.spec_index(),
    {
        match self {
            ChannelPage::ChannelPage0 => 0,
            ChannelPage::ChannelPage1 => 1,
            ChannelPage::ChannelPage2 => 2,
        }
    }
}

/// One of the 27 channels of page 0.
#[derive(Debug, Clone, Copy, PartialEq, Eq, Structural)]
pub enum Channel {
    Channel0,
    Channel1,
    Channel2,
    Channel3,
    Channel4,
    Channel5,
    Channel6,
    Channel7,
    Channel8,
    Channel9,
    Channel10,
    Channel11,
    Channel12,
    Channel13,
    Channel14,
    Channel15,
    Channel16,
    Channel17,
    Channel18,
    Channel19,
    Channel20,
    Channel21,
    Channel22,
    Channel23,
    Channel24,
    Channel25,
    Channel26,
}

impl Channel {
    /// The channel's number.
    pub open spec fn spec_number(self) -> u8 {
        match self {
            Channel::Channel0 => 0,
            Channel::Channel1 => 1,
            Channel::Channel2 => 2,
            Channel::Channel3 => 3,
            Channel::Channel4 => 4,
            Channel::Channel5 => 5,
            Channel::Channel6 => 6,
            Channel::Channel7 => 7,
            Channel::Channel8 => 8,
            Channel::Channel9 => 9,
            Channel::Channel10 => 10,
            Channel::Channel11 => 11,
            Channel::Channel12 => 12,
            Channel::Channel13 => 13,
            Channel::Channel14 => 14,
            Channel::Channel15 => 15,
            Channel::Channel16 => 16,
            Channel::Channel17 => 17,
            Channel::Channel18 => 18,
            Channel::Channel19 => 19,
            Channel::Channel20 => 20,
            Channel::Channel21 => 21,
            Channel::Channel22 => 22,
            Channel::Channel23 => 23,
            Channel::Channel24 => 24,
            Channel::Channel25 => 25,
            Channel::Channel26 => 26,
        }
    }

    pub fn number(&self) -> (r: u8)
        ensures
            r == self.spec_number(),
            r <= 26,
    {
        match self {
            Channel::Channel0 => 0,
            Channel::Channel1 => 1,
            Channel::Channel2 => 2,
            Channel::Channel3 => 3,
            Channel::Channel4 => 4,
            Channel::Channel5 => 5,
            Channel::Channel6 => 6,
            Channel::Channel7 => 7,
            Channel::Channel8 => 8,
            Channel::Channel9 => 9,
            Channel::Channel10 => 10,
            Channel::Channel11 => 11,
            Channel::Channel12 => 12,
            Channel::Channel13 => 13,
            Channel::Channel14 => 14,
            Channel::Channel15 => 15,
            Channel::Channel16 => 16,
            Channel::Channel17 => 17,
            Channel::Channel18 => 18,
            Channel::Channel19 => 19,
            Channel::Channel20 => 20,
            Channel::Channel21 => 21,
            Channel::Channel22 => 22,
            Channel::Channel23 => 23,
            Channel::Channel24 => 24,
            Channel::Channel25 => 25,
            Channel::Channel26 => 26,
        }
    }

    /// The channel with number `v`.
    pub open spec fn spec_from_u8(v: u8) -> Channel {
        if v == 0 {
            Channel::Channel0
        } else if v == 1 {
            Channel::Channel1
        } else if v == 2 {
            Channel::Channel2
        } else if v == 3 {
            Channel::Channel3
        } else if v == 4 {
            Channel::Channel4
        } else if v == 5 {
            Channel::Channel5
        } else if v == 6 {
            Channel::Channel6
        } else if v == 7 {
            Channel::Channel7
        } else if v == 8 {
            Channel::Channel8
        } else if v == 9 {
            Channel::Channel9
        } else if v == 10 {
            Channel::Channel10
        } else if v == 11 {
            Channel::Channel11
        } else if v == 12 {
            Channel::Channel12
        } else if v == 13 {
            Channel::Channel13
        } else if v == 14 {
            Channel::Channel14
        } else if v == 15 {
            Channel::Channel15
        } else if v == 16 {
            Channel::Channel16
        } else if v == 17 {
            Channel::Channel17
        } else if v == 18 {
            Channel::Channel18
        } else if v == 19 {
            Channel::Channel19
        } else if v == 20 {
            Channel::Channel20
        } else if v == 21 {
            Channel::Channel21
        } else if v == 22 {
            Channel::Channel22
        } else if v == 23 {
            Channel::Channel23
        } else if v == 24 {
            Channel::Channel24
        } else if v == 25 {
            Channel::Channel25
        } else {
            Channel::Channel26
        }
    }

    /// The channel with number `v`; there is none above 26.
    pub fn from_u8(v: u8) -> (r: Channel)
        requires
            v <= 26,
        ensures
            r == Channel::spec_from_u8(v),
            r.spec_number() == v,
    {
        let mut i: u8 = 0;
        let mut c = Channel::Channel0;
        while i < v
            invariant
                i <= v <= 26,
                c == Channel::spec_from_u8(i),
            decreases v - i,
        {
            c = Channel::next_after(c);
            i = i + 1;
        }
        c
    }

    fn next_after(c: Channel) -> (r: Channel)
        requires
            c.spec_number() < 26,
        ensures
            r == Channel::spec_from_u8((c.spec_number() + 1) as u8),
    {
        match c {
            Channel::Channel0 => Channel::Channel1,
            Channel::Channel1 => Channel::Channel2,
            Channel::Channel2 => Channel::Channel3,
            Channel::Channel3 => Channel::Channel4,
            Channel::Channel4 => Channel::Channel5,
            Channel::Channel5 => Channel::Channel6,
            Channel::Channel6 => Channel::Channel7,
            Channel::Channel7 => Channel::Channel8,
            Channel::Channel8 => Channel::Channel9,
            Channel::Channel9 => Channel::Channel10,
            Channel::Channel10 => Channel::Channel11,
            Channel::Channel11 => Channel::Channel12,
            Channel::Channel12 => Channel::Channel13,
            Channel::Channel13 => Channel::Channel14,
            Channel::Channel14 => Channel::Channel15,
            Channel::Channel15 => Channel::Channel16,
            Channel::Channel16 => Channel::Channel17,
            Channel::Channel17 => Channel::Channel18,
            Channel::Channel18 => Channel::Channel19,
            Channel::Channel19 => Channel::Channel20,
            Channel::Channel20 => Channel::Channel21,
            Channel::Channel21 => Channel::Channel22,
            Channel::Channel22 => Channel::Channel23,
            Channel::Channel23 => Channel::Channel24,
            Channel::Channel24 => Channel::Channel25,
            Channel::Channel25 => Channel::Channel26,
            Channel::Channel26 => Channel::Channel26,
        }
    }

    /// Every channel, in order.
    pub fn all() -> (r: [Channel; 27])
        ensures
            forall|i: int| 0 <= i < 27 ==> (#[trigger] r@[i]).spec_number() == i,
    {
        [
        Channel::Channel0,
        Channel::Channel1,
        Channel::Channel2,
        Channel::Channel3,
        Channel::Channel4,
        Channel::Channel5,
        Channel::Channel6,
        Channel::Channel7,
        Channel::Channel8,
        Channel::Channel9,
        Channel::Channel10,
        Channel::Channel11,
        Channel::Channel12,
        Channel::Channel13,
        Channel::Channel14,
        Channel::Channel15,
        Channel::Channel16,
        Channel::Channel17,
        Channel::Channel18,
        Channel::Channel19,
        Channel::Channel20,
        Channel::Channel21,
        Channel::Channel22,
        Channel::Channel23,
        Channel::Channel24,
        Channel::Channel25,
        Channel::Channel26,
        ]
    }

    /// The mask of page 0 that holds this channel alone.
    pub fn as_channel_mask(&self) -> (r: ChannelMask)
        ensures
            r == spec_channel_mask(ChannelPage::ChannelPage0, seq![*self]),
    {
        let chs = [*self];
        proof {
            assert(chs@ =~= seq![*self]);
        }
        ChannelMask::new(ChannelPage::ChannelPage0, &chs)
    }
}

/// A channel page in the top five bits and one bit per channel below.
#[derive(Clone, Copy, Debug, PartialEq, Eq, Structural)]
pub struct ChannelMask(pub u32);

/// The mask that a page and a list of channels make.
pub open spec fn spec_channel_mask(page: ChannelPage, channels: Seq<Channel>) -> ChannelMask
    decreases channels.len(),
{
    if channels.len() == 0 {
        ChannelMask(page.spec_index() << 27u32)
    } else {
        let prev = spec_channel_mask(page, channels.drop_last());
        ChannelMask(prev.0 | (1u32 << channels.last().spec_number()))
    }
}

/// The page bits of a mask.
pub open spec fn spec_page_bits(mask: u32) -> u32 {
    (mask & 0xf800_0000) >> 27u32
}

pub const CHANNEL_MASK_ZERO: u32 = 0;

pub const DEFAULT_PRIMARY_CHANNEL_SET: u32 = 0x02108800;

pub const DEFAULT_SECONDARY_CHANNEL_SET: u32 = 0x07fff800 ^ 0x2108800;

impl ChannelMask {
    pub fn new(page: ChannelPage, channels: &[Channel]) -> (r: ChannelMask)
        ensures
            r == spec_channel_mask(page, channels@),
    {
        let mut mask: u32 = page.index() << 27u32;
        let mut i: usize = 0;
        proof {
            assert(channels@.subrange(0, 0) =~= Seq::<Channel>::empty());
        }
        while i < channels.len()
            invariant
                i <= channels@.len(),
                ChannelMask(mask) == spec_channel_mask(page, channels@.subrange(0, i as int)),
            decreases channels@.len() - i,
        {
            let idx = channels[i].number();
            mask = mask | (1u32 << idx);
            proof {
                let s = channels@.subrange(0, i + 1);
                assert(s.drop_last() =~= channels@.subrange(0, i as int));
                assert(s.last() == channels@[i as int]);
            }
            i = i + 1;
        }
        proof {
            assert(channels@.subrange(0, channels@.len() as int) =~= channels@);
        }
        ChannelMask(mask)
    }

    /// Whether the mask names a page that exists.
    pub open spec fn spec_has_valid_page(self) -> bool {
        spec_page_bits(self.0) <= 2
    }

    pub open spec fn spec_page(self) -> ChannelPage {
        let p = spec_page_bits(self.0);
        if p == 0 {
            ChannelPage::ChannelPage0
        } else if p == 1 {
            ChannelPage::ChannelPage1
        } else {
            ChannelPage::ChannelPage2
        }
    }

    /// The page of the mask; a mask of another page is never built.
    pub fn get_page(&self) -> (r: ChannelPage)
        requires
            self.spec_has_valid_page(),
        ensures
            r == self.spec_page(),
            r.spec_index() == spec_page_bits(self.0),
    {
        let page = (self.0 & 0xf800_0000u32) >> 27u32;
        if page == 0 {
            ChannelPage::ChannelPage0
        } else if page == 1 {
            ChannelPage::ChannelPage1
        } else {
            ChannelPage::ChannelPage2
        }
    }

    pub open spec fn spec_channel_is_set(self, channel: Channel) -> bool {
        self.0 & (1u32 << channel.spec_number()) != 0
    }

    pub fn channel_is_set(&self, channel: Channel) -> (r: bool)
        ensures
            r == self.spec_channel_is_set(channel),
    {
        let n = channel.number();
        (self.0 & (1u32 << n)) != 0
    }

    /// The channels set in both masks, or no channel when the pages differ.
    pub fn intersect_with(&self, other: ChannelMask) -> (r: ChannelMask)
        requires
            self.spec_has_valid_page(),
            other.spec_has_valid_page(),
        ensures
            r == (if self.spec_page() != other.spec_page() {
                ChannelMask(0)
            } else {
                ChannelMask(self.0 & other.0)
            }),
    {
        if self.get_page() != other.get_page() {
            return ChannelMask(CHANNEL_MASK_ZERO);
        }
        ChannelMask(self.0 & other.0)
    }
}

proof fn lemma_page_bits_of_page(p: u32)
    requires
        p <= 2,
    ensures
        ((p << 27u32) & 0xf800_0000u32) >> 27u32 == p,
        forall|k: u32| k <= 26 ==> #[trigger] ((p << 27u32) & (1u32 << k)) == 0,
{
    assert(((p << 27u32) & 0xf800_0000u32) >> 27u32 == p) by (bit_vector)
        requires
            p <= 2,
    ;
    assert forall|k: u32| k <= 26 implies #[trigger] ((p << 27u32) & (1u32 << k)) == 0 by {
        assert(((p << 27u32) & (1u32 << k)) == 0) by (bit_vector)
            requires
                p <= 2,
                k <= 26,
        ;
    }
}

proof fn lemma_channel_bit(m: u32, n: u32)
    requires
        n <= 26,
    ensures
        ((m | (1u32 << n)) & 0xf800_0000u32) >> 27u32 == (m & 0xf800_0000u32) >> 27u32,
        forall|k: u32| k <= 26 ==> (#[trigger] ((m | (1u32 << n)) & (1u32 << k)) != 0 <==> ((m & (1u32 << k)) != 0
            || n == k)),
{
    assert(((m | (1u32 << n)) & 0xf800_0000u32) >> 27u32 == (m & 0xf800_0000u32) >> 27u32) by (bit_vector)
        requires
            n <= 26,
    ;
    assert forall|k: u32| k <= 26 implies (#[trigger] ((m | (1u32 << n)) & (1u32 << k)) != 0 <==> ((m & (1u32
        << k)) != 0 || n == k)) by {
        assert(((m | (1u32 << n)) & (1u32 << k)) != 0 <==> ((m & (1u32 << k)) != 0 || n == k)) by (bit_vector)
            requires
                n <= 26,
                k <= 26,
        ;
    }
}

/// A channel's number is at most 26.
proof fn lemma_channel_number_bound(c: Channel)
    ensures
        c.spec_number() <= 26,
{
}

/// A mask gives back the page it was made with, whatever channels it has.
pub proof fn lemma_mask_page(page: ChannelPage, channels: Seq<Channel>)
    ensures
        spec_channel_mask(page, channels).spec_has_valid_page(),
        spec_channel_mask(page, channels).spec_page() == page,
    decreases channels.len(),
{
    if channels.len() == 0 {
        lemma_page_bits_of_page(page.spec_index());
    } else {
        lemma_mask_page(page, channels.drop_last());
        let prev = spec_channel_mask(page, channels.drop_last());
        lemma_channel_bit(prev.0, channels.last().spec_number() as u32);
    }
}

/// A mask has exactly the channels it was made with set.
pub proof fn lemma_mask_channels(page: ChannelPage, channels: Seq<Channel>, c: Channel)
    ensures
        spec_channel_mask(page, channels).spec_channel_is_set(c) <==> channels.contains(c),
    decreases channels.len(),
{
    lemma_channel_number_bound(c);
    if channels.len() == 0 {
        lemma_page_bits_of_page(page.spec_index());
        assert((((page.spec_index() << 27u32) & (1u32 << (c.spec_number() as u32))) == 0));
    } else {
        let rest = channels.drop_last();
        lemma_mask_channels(page, rest, c);
        let prev = spec_channel_mask(page, rest);
        let last = channels.last();
        lemma_channel_number_bound(last);
        lemma_channel_bit(prev.0, last.spec_number() as u32);
        assert(((prev.0 | (1u32 << (last.spec_number() as u32))) & (1u32 << (c.spec_number() as u32))) != 0 <==> ((
        prev.0 & (1u32 << (c.spec_number() as u32))) != 0 || last.spec_number() as u32 == c.spec_number() as u32));
        assert(last.spec_number() == c.spec_number() <==> last == c);
        assert(channels =~= rest.push(last));
        assert(channels.contains(c) <==> (rest.contains(c) || last == c)) by {
            if channels.contains(c) {
                let i = choose|i: int| 0 <= i < channels.len() && channels[i] == c;
                if i < rest.len() {
                    assert(rest[i] == c);
                }
            }
            if rest.contains(c) {
                let i = choose|i: int| 0 <= i < rest.len() && rest[i] == c;
                assert(channels[i] == c);
            }
            if last == c {
                assert(channels[channels.len() - 1] == c);
            }
        }
    }
}

impl Default for ChannelMask {
    /// Page 0 with channels 11 to 26.
    fn default() -> (r: Self)
        ensures
            r == spec_channel_mask(
                ChannelPage::ChannelPage0,
                seq![
                    Channel::Channel11,
                    Channel::Channel12,
                    Channel::Channel13,
                    Channel::Channel14,
                    Channel::Channel15,
                    Channel::Channel16,
                    Channel::Channel17,
                    Channel::Channel18,
                    Channel::Channel19,
                    Channel::Channel20,
                    Channel::Channel21,
                    Channel::Channel22,
                    Channel::Channel23,
                    Channel::Channel24,
                    Channel::Channel25,
                    Channel::Channel26,
                ],
            ),
    {
        let chs = [
            Channel::Channel11,
            Channel::Channel12,
            Channel::Channel13,
            Channel::Channel14,
            Channel::Channel15,
            Channel::Channel16,
            Channel::Channel17,
            Channel::Channel18,
            Channel::Channel19,
            Channel::Channel20,
            Channel::Channel21,
            Channel::Channel22,
            Channel::Channel23,
            Channel::Channel24,
            Channel::Channel25,
            Channel::Channel26,
        ];
        proof {
            assert(chs@ =~= seq![
                    Channel::Channel11,
                    Channel::Channel12,
                    Channel::Channel13,
                    Channel::Channel14,
                    Channel::Channel15,
                    Channel::Channel16,
                    Channel::Channel17,
                    Channel::Channel18,
                    Channel::Channel19,
                    Channel::Channel20,
                    Channel::Channel21,
                    Channel::Channel22,
                    Channel::Channel23,
                    Channel::Channel24,
                    Channel::Channel25,
                    Channel::Channel26,
            ]);
        }
        ChannelMask::new(ChannelPage::ChannelPage0, &chs)
    }
}

pub const A_MAX_MPDU_UNSECURED_OVERHEAD: usize = 25;

pub const A_MAX_PHY_PACKET_SIZE: usize = 127;

pub const A_MAX_MAC_SAFE_PAYLOAD_SIZE: usize = 102;

pub const A_MIN_MPDU_OVERHEAD: usize = 11;

pub const A_MAX_MAC_PAYLOAD_SIZE: usize = 116;

/// The capability information field a device sends when it joins.
#[derive(Copy, Clone, Eq, PartialEq, Debug, Structural)]
pub struct MacCapabilities {
    pub alternate_pan_coordinator: bool,
    pub device_type: MacDeviceType,
    pub current_source: MacCurrentSource,
    pub rx_on_when_idle: bool,
    pub security: bool,
    pub allocate_address: bool,
}

pub open spec fn bit_u8(b: bool, k: u8) -> u8 {
    if b {
        (1u8 << k)
    } else {
        0u8
    }
}

pub open spec fn is_bit_set(v: u8, k: u8) -> bool {
    (v >> k) & 1u8 == 1u8
}

impl MacCapabilities {
    /// The byte: one bit per field from the least significant, two bits
    /// skipped before `security`.
    pub open spec fn spec_to_u8(self) -> u8 {
        bit_u8(self.alternate_pan_coordinator, 0)
            | bit_u8(self.device_type == MacDeviceType::FullFunctionDevice, 1)
            | bit_u8(self.current_source == MacCurrentSource::Mains, 2)
            | bit_u8(self.rx_on_when_idle, 3)
            | bit_u8(self.security, 6)
            | bit_u8(self.allocate_address, 7)
    }

    pub open spec fn spec_from_u8(v: u8) -> MacCapabilities {
        MacCapabilities {
            alternate_pan_coordinator: is_bit_set(v, 0),
            device_type: if is_bit_set(v, 1) {
                MacDeviceType::FullFunctionDevice
            } else {
                MacDeviceType::ReducedFunctionDevice
            },
            current_source: if is_bit_set(v, 2) {
                MacCurrentSource::Mains
            } else {
                MacCurrentSource::Other
            },
            rx_on_when_idle: is_bit_set(v, 3),
            security: is_bit_set(v, 6),
            allocate_address: is_bit_set(v, 7),
        }
    }

    pub fn get_value(&self) -> (r: u8)
        ensures
            r == self.spec_to_u8(),
    {
        let a = self.alternate_pan_coordinator;
        let b = self.device_type == MacDeviceType::FullFunctionDevice;
        let c = self.current_source == MacCurrentSource::Mains;
        let d = self.rx_on_when_idle;
        let e = self.security;
        let f = self.allocate_address;
        let v: u8 = (if a { 1u8 << 0u8 } else { 0u8 }) | (if b { 1u8 << 1u8 } else { 0u8 }) | (if c {
            1u8 << 2u8
        } else {
            0u8
        }) | (if d { 1u8 << 3u8 } else { 0u8 }) | (if e { 1u8 << 6u8 } else { 0u8 }) | (if f {
            1u8 << 7u8
        } else {
            0u8
        });
        v
    }

    pub fn from_value(v: u8) -> (r: MacCapabilities)
        ensures
            r == MacCapabilities::spec_from_u8(v),
    {
        MacCapabilities {
            alternate_pan_coordinator: (v >> 0u8) & 1u8 == 1u8,
            device_type: if (v >> 1u8) & 1u8 == 1u8 {
                MacDeviceType::FullFunctionDevice
            } else {
                MacDeviceType::ReducedFunctionDevice
            },
            current_source: if (v >> 2u8) & 1u8 == 1u8 {
                MacCurrentSource::Mains
            } else {
                MacCurrentSource::Other
            },
            rx_on_when_idle: (v >> 3u8) & 1u8 == 1u8,
            security: (v >> 6u8) & 1u8 == 1u8,
            allocate_address: (v >> 7u8) & 1u8 == 1u8,
        }
    }

    pub fn is_reduced_function_device(&self) -> (r: bool)
        ensures
            r == (self.device_type == MacDeviceType::ReducedFunctionDevice),
    {
        self.device_type == MacDeviceType::ReducedFunctionDevice
    }

    pub fn is_full_function_device(&self) -> (r: bool)
        ensures
            r == (self.device_type == MacDeviceType::FullFunctionDevice),
    {
        self.device_type == MacDeviceType::FullFunctionDevice
    }
}

impl Default for MacCapabilities {
    fn default() -> (r: Self)
        ensures
            r == (MacCapabilities {
                alternate_pan_coordinator: false,
                device_type: MacDeviceType::ReducedFunctionDevice,
                current_source: MacCurrentSource::Mains,
                rx_on_when_idle: true,
                security: true,
                allocate_address: true,
            }),
    {
        MacCapabilities {
            alternate_pan_coordinator: false,
            device_type: MacDeviceType::ReducedFunctionDevice,
            current_source: MacCurrentSource::Mains,
            rx_on_when_idle: true,
            security: true,
            allocate_address: true,
        }
    }
}

/// Reading back the written capability byte gives the same capabilities.
pub proof fn lemma_mac_capabilities_roundtrip(c: MacCapabilities)
    ensures
        MacCapabilities::spec_from_u8(c.spec_to_u8()) == c,
{
    let a = c.alternate_pan_coordinator;
    let b = c.device_type == MacDeviceType::FullFunctionDevice;
    let cs = c.current_source == MacCurrentSource::Mains;
    let d = c.rx_on_when_idle;
    let e = c.security;
    let f = c.allocate_address;
    let v = c.spec_to_u8();
    assert(({
        let v = (if a { 1u8 << 0u8 } else { 0u8 }) | (if b { 1u8 << 1u8 } else { 0u8 }) | (if cs {
            1u8 << 2u8
        } else {
            0u8
        }) | (if d { 1u8 << 3u8 } else { 0u8 }) | (if e { 1u8 << 6u8 } else { 0u8 }) | (if f {
            1u8 << 7u8
        } else {
            0u8
        });
        &&& ((v >> 0u8) & 1u8 == 1u8) == a
        &&& ((v >> 1u8) & 1u8 == 1u8) == b
        &&& ((v >> 2u8) & 1u8 == 1u8) == cs
        &&& ((v >> 3u8) & 1u8 == 1u8) == d
        &&& ((v >> 6u8) & 1u8 == 1u8) == e
        &&& ((v >> 7u8) & 1u8 == 1u8) == f
    })) by (bit_vector);
}

/// Each channel page is written as its number.
pub proof fn lemma_channel_page_indices(x: ChannelPage)
    ensures
        x is ChannelPage0 ==> x.spec_index() == 0u32,
        x is ChannelPage1 ==> x.spec_index() == 1u32,
        x is ChannelPage2 ==> x.spec_index() == 2u32,
{
}

/// Each channel is written as its number.
pub proof fn lemma_channel_numbers(x: Channel)
    ensures
        x is Channel0 ==> x.spec_number() == 0u8,
        x is Channel1 ==> x.spec_number() == 1u8,
        x is Channel2 ==> x.spec_number() == 2u8,
        x is Channel3 ==> x.spec_number() == 3u8,
        x is Channel4 ==> x.spec_number() == 4u8,
        x is Channel5 ==> x.spec_number() == 5u8,
        x is Channel6 ==> x.spec_number() == 6u8,
        x is Channel7 ==> x.spec_number() == 7u8,
        x is Channel8 ==> x.spec_number() == 8u8,
        x is Channel9 ==> x.spec_number() == 9u8,
        x is Channel10 ==> x.spec_number() == 10u8,
        x is Channel11 ==> x.spec_number() == 11u8,
        x is Channel12 ==> x.spec_number() == 12u8,
        x is Channel13 ==> x.spec_number() == 13u8,
        x is Channel14 ==> x.spec_number() == 14u8,
        x is Channel15 ==> x.spec_number() == 15u8,
        x is Channel16 ==> x.spec_number() == 16u8,
        x is Channel17 ==> x.spec_number() == 17u8,
        x is Channel18 ==> x.spec_number() == 18u8,
        x is Channel19 ==> x.spec_number() == 19u8,
        x is Channel20 ==> x.spec_number() == 20u8,
        x is Channel21 ==> x.spec_number() == 21u8,
        x is Channel22 ==> x.spec_number() == 22u8,
        x is Channel23 ==> x.spec_number() == 23u8,
        x is Channel24 ==> x.spec_number() == 24u8,
        x is Channel25 ==> x.spec_number() == 25u8,
        x is Channel26 ==> x.spec_number() == 26u8,
{
}

proof fn lemma_six_bits(a: u8, b: u8, c: u8, d: u8, e: u8, f: u8)
    by (bit_vector)
    requires
        a <= 1,
        b <= 1,
        c <= 1,
        d <= 1,
        e <= 1,
        f <= 1,
    ensures
        ({
            let v = a | (b << 1u8) | (c << 2u8) | (d << 3u8) | (e << 6u8) | (f << 7u8);
            &&& (v >> 0u8) & 1u8 == a
            &&& (v >> 1u8) & 1u8 == b
            &&& (v >> 2u8) & 1u8 == c
            &&& (v >> 3u8) & 1u8 == d
            &&& (v >> 4u8) & 1u8 == 0
            &&& (v >> 5u8) & 1u8 == 0
            &&& (v >> 6u8) & 1u8 == e
            &&& (v >> 7u8) & 1u8 == f
        }),
{
}

/// The capability byte: alternate PAN coordinator in bit 0, a full
/// function device in bit 1, mains power in bit 2, receiver on when idle in
/// bit 3, bits 4 and 5 clear, security in bit 6, address allocation in
/// bit 7.
pub proof fn lemma_capability_bits(c: MacCapabilities)
    ensures
        is_bit_set(c.spec_to_u8(), 0) == c.alternate_pan_coordinator,
        is_bit_set(c.spec_to_u8(), 1) == (c.device_type == MacDeviceType::FullFunctionDevice),
        is_bit_set(c.spec_to_u8(), 2) == (c.current_source == MacCurrentSource::Mains),
        is_bit_set(c.spec_to_u8(), 3) == c.rx_on_when_idle,
        !is_bit_set(c.spec_to_u8(), 4),
        !is_bit_set(c.spec_to_u8(), 5),
        is_bit_set(c.spec_to_u8(), 6) == c.security,
        is_bit_set(c.spec_to_u8(), 7) == c.allocate_address,
{
    let a: u8 = if c.alternate_pan_coordinator { 1 } else { 0 };
    let b: u8 = if c.device_type == MacDeviceType::FullFunctionDevice { 1 } else { 0 };
    let m: u8 = if c.current_source == MacCurrentSource::Mains { 1 } else { 0 };
    let d: u8 = if c.rx_on_when_idle { 1 } else { 0 };
    let e: u8 = if c.security { 1 } else { 0 };
    let f: u8 = if c.allocate_address { 1 } else { 0 };
    assert(1u8 << 0u8 == 1u8 && 1u8 << 1u8 == 2u8 && 1u8 << 2u8 == 4u8 && 1u8 << 3u8 == 8u8 && 1u8 << 6u8 == 64u8
        && 1u8 << 7u8 == 128u8 && 1u8 >> 0u8 == 1u8) by (bit_vector);
    assert(0u8 << 1u8 == 0u8 && 0u8 << 2u8 == 0u8 && 0u8 << 3u8 == 0u8 && 0u8 << 6u8 == 0u8 && 0u8 << 7u8 == 0u8)
        by (bit_vector);
    lemma_six_bits(a, b, m, d, e, f);
    assert(c.spec_to_u8() == a | (b << 1u8) | (m << 2u8) | (d << 3u8) | (e << 6u8) | (f << 7u8));
}

} // verus!

