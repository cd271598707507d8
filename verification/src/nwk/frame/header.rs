//! The NWK frame: its header, with the frame control field and the optional
//! parts that the control flags announce, and the frame kinds that follow it.
use vstd::prelude::*;

use crate::bytes::{
    le_value, spec_u16_at, spec_u64_at, spec_u8_at, u16_at, u16_le, u64_at, u64_le, u8_at, write_u16,
    write_u64, write_u8, ParseError,
};
use crate::collections::Vec;
use crate::common::{ExtendedAddress, NwkAddress};

verus! {

/// The kind of NWK frame (two bits of the frame control field).
#[derive(Debug, Clone, Copy, PartialEq, Eq, Structural)]
pub enum FrameType {
    Data,
    NwkCommand,
    Reserved,
    InterPan,
}

impl FrameType {
    pub open spec fn spec_code(self) -> u16 {
        match self {
            FrameType::Data => 0,
            FrameType::NwkCommand => 1,
            FrameType::Reserved => 2,
            FrameType::InterPan => 3,
        }
    }

    pub open spec fn spec_from_code(v: u16) -> FrameType {
        if v == 0 {
            FrameType::Data
        } else if v == 1 {
            FrameType::NwkCommand
        } else if v == 2 {
            FrameType::Reserved
        } else {
            FrameType::InterPan
        }
    }
}

impl Default for FrameType {
    fn default() -> (r: Self)
        ensures
            r == FrameType::Data,
    {
        FrameType::Data
    }
}

/// Whether a route may be discovered for the frame.
#[derive(Debug, Clone, Copy, PartialEq, Eq, Structural)]
pub enum DiscoverRoute {
    Suppress,
    Enable,
}

impl Default for DiscoverRoute {
    fn default() -> (r: Self)
        ensures
            r == DiscoverRoute::Suppress,
    {
        DiscoverRoute::Suppress
    }
}

/// Whether a multicast is sent by a member of its group.
#[derive(Clone, Copy, Debug, Eq, PartialEq, Structural)]
pub enum MulticastMode {
    NonMember,
    Member,
}

/// The multicast control byte: mode in bits 0-1, the non-member radius in
/// bits 2-4 and its maximum in bits 5-7.
#[derive(Clone, Copy, Debug, Eq, PartialEq, Structural)]
pub struct MulticastControl {
    pub multicast_mode: MulticastMode,
    pub non_member_radius: u8,
    pub max_non_member_radius: u8,
}

impl MulticastControl {
    pub open spec fn spec_to_u8(self) -> u8 {
        ((if self.multicast_mode == MulticastMode::Member {
            1u8
        } else {
            0u8
        }) + 4 * (self.non_member_radius % 8) + 32 * (self.max_non_member_radius % 8)) as u8
    }

    pub open spec fn spec_from_u8(v: u8) -> Result<MulticastControl, ParseError> {
        let mode = v % 4;
        if mode > 1 {
            Err(ParseError::BadInput)
        } else {
            Ok(
                MulticastControl {
                    multicast_mode: if mode == 1 {
                        MulticastMode::Member
                    } else {
                        MulticastMode::NonMember
                    },
                    non_member_radius: ((v / 4) % 8) as u8,
                    max_non_member_radius: (v / 32) as u8,
                },
            )
        }
    }

    pub open spec fn spec_wf(self) -> bool {
        self.non_member_radius < 8 && self.max_non_member_radius < 8
    }

    pub fn to_u8(&self) -> (r: u8)
        ensures
            r == self.spec_to_u8(),
    {
        let m: u8 = if self.multicast_mode == MulticastMode::Member {
            1
        } else {
            0
        };
        m + 4 * (self.non_member_radius % 8) + 32 * (self.max_non_member_radius % 8)
    }

    pub fn from_u8(v: u8) -> (r: Result<MulticastControl, ParseError>)
        ensures
            r == MulticastControl::spec_from_u8(v),
    {
        let mode = v % 4;
        if mode > 1 {
            Err(ParseError::BadInput)
        } else {
            Ok(
                MulticastControl {
                    multicast_mode: if mode == 1 {
                        MulticastMode::Member
                    } else {
                        MulticastMode::NonMember
                    },
                    non_member_radius: (v / 4) % 8,
                    max_non_member_radius: v / 32,
                },
            )
        }
    }
}

/// The relays of a source-routed frame.
pub struct SourceRouteSubframe {
    pub relay_count: u8,
    pub relay_index: u8,
    pub relay_list: Vec<u16, 32>,
}

/// What a [`SourceRouteSubframe`] holds.
pub ghost struct SourceRouteSubframeView {
    pub relay_count: u8,
    pub relay_index: u8,
    pub relay_list: Seq<u16>,
}

impl View for SourceRouteSubframe {
    type V = SourceRouteSubframeView;

    open spec fn view(&self) -> SourceRouteSubframeView {
        SourceRouteSubframeView {
            relay_count: self.relay_count,
            relay_index: self.relay_index,
            relay_list: self.relay_list@,
        }
    }
}

impl SourceRouteSubframe {
    pub fn copy(&self) -> (r: SourceRouteSubframe)
        ensures
            r@ == self@,
    {
        SourceRouteSubframe {
            relay_count: self.relay_count,
            relay_index: self.relay_index,
            relay_list: self.relay_list.copy(),
        }
    }
}

/// The 16-bit frame control field.
#[derive(Clone, Copy, Debug, Eq, PartialEq, Structural)]
pub struct FrameControl {
    pub frame_type: FrameType,
    pub version: u8,
    pub route_discovery: DiscoverRoute,
    pub multicast: bool,
    pub security: bool,
    pub source_route: bool,
    pub dst_ext_addr: bool,
    pub src_ext_addr: bool,
    pub end_device_initiator: bool,
}

pub open spec fn flag(b: bool, weight: u16) -> u16 {
    if b {
        weight
    } else {
        0
    }
}

pub open spec fn is_flag_set(v: u16, weight: u16) -> bool {
    (v / weight) % 2 == 1
}

impl FrameControl {
    /// Frame type in bits 0-1, version in bits 2-5, route discovery in bits
    /// 6-7, then one bit for each flag.
    pub open spec fn spec_to_u16(self) -> u16 {
        (self.frame_type.spec_code() + 4 * ((self.version % 16) as u16) + 64 * (if self.route_discovery
            == DiscoverRoute::Enable {
            1u16
        } else {
            0u16
        }) + flag(self.multicast, 0x100) + flag(self.security, 0x200) + flag(
            self.source_route,
            0x400,
        ) + flag(self.dst_ext_addr, 0x800) + flag(self.src_ext_addr, 0x1000) + flag(
            self.end_device_initiator,
            0x2000,
        )) as u16
    }

    pub open spec fn spec_from_u16(v: u16) -> Result<FrameControl, ParseError> {
        let rd = (v / 64) % 4;
        if rd > 1 {
            Err(ParseError::BadInput)
        } else {
            Ok(
                FrameControl {
                    frame_type: FrameType::spec_from_code(v % 4),
                    version: ((v / 4) % 16) as u8,
                    route_discovery: if rd == 1 {
                        DiscoverRoute::Enable
                    } else {
                        DiscoverRoute::Suppress
                    },
                    multicast: is_flag_set(v, 0x100),
                    security: is_flag_set(v, 0x200),
                    source_route: is_flag_set(v, 0x400),
                    dst_ext_addr: is_flag_set(v, 0x800),
                    src_ext_addr: is_flag_set(v, 0x1000),
                    end_device_initiator: is_flag_set(v, 0x2000),
                },
            )
        }
    }

    pub fn to_u16(&self) -> (r: u16)
        ensures
            r == self.spec_to_u16(),
    {
        let ft: u16 = match self.frame_type {
            FrameType::Data => 0,
            FrameType::NwkCommand => 1,
            FrameType::Reserved => 2,
            FrameType::InterPan => 3,
        };
        let rd: u16 = if self.route_discovery == DiscoverRoute::Enable {
            1
        } else {
            0
        };
        let mc: u16 = if self.multicast {
            0x100
        } else {
            0
        };
        let sec: u16 = if self.security {
            0x200
        } else {
            0
        };
        let sr: u16 = if self.source_route {
            0x400
        } else {
            0
        };
        let de: u16 = if self.dst_ext_addr {
            0x800
        } else {
            0
        };
        let se: u16 = if self.src_ext_addr {
            0x1000
        } else {
            0
        };
        let edi: u16 = if self.end_device_initiator {
            0x2000
        } else {
            0
        };
        ft + 4 * ((self.version % 16) as u16) + 64 * rd + mc + sec + sr + de + se + edi
    }

    pub fn from_u16(v: u16) -> (r: Result<FrameControl, ParseError>)
        ensures
            r == FrameControl::spec_from_u16(v),
    {
        let rd = (v / 64) % 4;
        if rd > 1 {
            return Err(ParseError::BadInput);
        }
        let code = v % 4;
        let frame_type = if code == 0 {
            FrameType::Data
        } else if code == 1 {
            FrameType::NwkCommand
        } else if code == 2 {
            FrameType::Reserved
        } else {
            FrameType::InterPan
        };
        Ok(
            FrameControl {
                frame_type,
                version: ((v / 4) % 16) as u8,
                route_discovery: if rd == 1 {
                    DiscoverRoute::Enable
                } else {
                    DiscoverRoute::Suppress
                },
                multicast: (v / 0x100) % 2 == 1,
                security: (v / 0x200) % 2 == 1,
                source_route: (v / 0x400) % 2 == 1,
                dst_ext_addr: (v / 0x800) % 2 == 1,
                src_ext_addr: (v / 0x1000) % 2 == 1,
                end_device_initiator: (v / 0x2000) % 2 == 1,
            },
        )
    }
}

impl Default for FrameControl {
    fn default() -> (r: Self)
        ensures
            r == (FrameControl {
                frame_type: FrameType::Data,
                version: 0,
                route_discovery: DiscoverRoute::Suppress,
                multicast: false,
                security: false,
                source_route: false,
                dst_ext_addr: false,
                src_ext_addr: false,
                end_device_initiator: false,
            }),
    {
        FrameControl {
            frame_type: FrameType::Data,
            version: 0,
            route_discovery: DiscoverRoute::Suppress,
            multicast: false,
            security: false,
            source_route: false,
            dst_ext_addr: false,
            src_ext_addr: false,
            end_device_initiator: false,
        }
    }
}

/// A frame control value is read back from its two bytes.
pub proof fn lemma_frame_control_roundtrip(fc: FrameControl)
    requires
        fc.version < 16,
    ensures
        FrameControl::spec_from_u16(fc.spec_to_u16()) == Ok::<FrameControl, ParseError>(fc),
{
    let ft = fc.frame_type.spec_code();
    let ver = fc.version as u16;
    let rd: u16 = if fc.route_discovery == DiscoverRoute::Enable {
        1
    } else {
        0
    };
    let a = fc.multicast;
    let b = fc.security;
    let c = fc.source_route;
    let d = fc.dst_ext_addr;
    let e = fc.src_ext_addr;
    let f = fc.end_device_initiator;
    assert(fc.spec_to_u16() == (ft + 4 * ver + 64 * rd + (if a { 0x100u16 } else { 0 }) + (if b {
        0x200u16
    } else {
        0
    }) + (if c { 0x400u16 } else { 0 }) + (if d { 0x800u16 } else { 0 }) + (if e {
        0x1000u16
    } else {
        0
    }) + (if f { 0x2000u16 } else { 0 })) as u16);
    assert(ft < 4 && ver < 16 && rd < 2 ==> {
        let v = (ft + 4 * ver + 64 * rd + (if a { 0x100u16 } else { 0 }) + (if b {
            0x200u16
        } else {
            0
        }) + (if c { 0x400u16 } else { 0 }) + (if d { 0x800u16 } else { 0 }) + (if e {
            0x1000u16
        } else {
            0
        }) + (if f { 0x2000u16 } else { 0 })) as u16;
        &&& v % 4 == ft
        &&& (v / 4) % 16 == ver
        &&& (v / 64) % 4 == rd
        &&& ((v / 0x100) % 2 == 1) == a
        &&& ((v / 0x200) % 2 == 1) == b
        &&& ((v / 0x400) % 2 == 1) == c
        &&& ((v / 0x800) % 2 == 1) == d
        &&& ((v / 0x1000) % 2 == 1) == e
        &&& ((v / 0x2000) % 2 == 1) == f
    }) by (bit_vector);
    assert(FrameType::spec_from_code(ft) == fc.frame_type);
}

/// The NWK header.
pub struct NwkHeader {
    pub control: FrameControl,
    pub destination: NwkAddress,
    pub source: NwkAddress,
    pub radius: u8,
    pub sequence_number: u8,
    pub destination_ieee: Option<ExtendedAddress>,
    pub source_ieee: Option<ExtendedAddress>,
    pub multicast_control: Option<MulticastControl>,
    pub source_route_subframe: Option<SourceRouteSubframe>,
}

/// What a [`NwkHeader`] holds.
pub ghost struct NwkHeaderView {
    pub control: FrameControl,
    pub destination: NwkAddress,
    pub source: NwkAddress,
    pub radius: u8,
    pub sequence_number: u8,
    pub destination_ieee: Option<ExtendedAddress>,
    pub source_ieee: Option<ExtendedAddress>,
    pub multicast_control: Option<MulticastControl>,
    pub source_route_subframe: Option<SourceRouteSubframeView>,
}

impl View for NwkHeader {
    type V = NwkHeaderView;

    open spec fn view(&self) -> NwkHeaderView {
        NwkHeaderView {
            control: self.control,
            destination: self.destination,
            source: self.source,
            radius: self.radius,
            sequence_number: self.sequence_number,
            destination_ieee: self.destination_ieee,
            source_ieee: self.source_ieee,
            multicast_control: self.multicast_control,
            source_route_subframe: match self.source_route_subframe {
                Some(s) => Some(s@),
                None => None,
            },
        }
    }
}

/// The bytes of a list of 16-bit values.
pub open spec fn u16s_bytes(list: Seq<u16>) -> Seq<u8>
    decreases list.len(),
{
    if list.len() == 0 {
        Seq::empty()
    } else {
        u16s_bytes(list.drop_last()) + u16_le(list.last())
    }
}

pub open spec fn opt_ext_bytes(a: Option<ExtendedAddress>) -> Seq<u8> {
    match a {
        Some(a) => u64_le(a.0),
        None => Seq::empty(),
    }
}

pub open spec fn subframe_bytes(s: SourceRouteSubframeView) -> Seq<u8> {
    seq![s.relay_count, s.relay_index] + u16s_bytes(s.relay_list)
}

pub open spec fn opt_mc_bytes(m: Option<MulticastControl>) -> Seq<u8> {
    match m {
        Some(m) => seq![m.spec_to_u8()],
        None => Seq::empty(),
    }
}

pub open spec fn opt_subframe_bytes(s: Option<SourceRouteSubframeView>) -> Seq<u8> {
    match s {
        Some(s) => subframe_bytes(s),
        None => Seq::empty(),
    }
}

fn write_opt_ext(out: &mut std::vec::Vec<u8>, a: Option<ExtendedAddress>)
    ensures
        final(out)@ == old(out)@ + opt_ext_bytes(a),
{
    match a {
        Some(a) => write_u64(out, a.0),
        None => {
            assert(old(out)@ + opt_ext_bytes(a) =~= old(out)@);
        },
    }
}

fn write_opt_multicast(out: &mut std::vec::Vec<u8>, m: Option<MulticastControl>)
    ensures
        final(out)@ == old(out)@ + opt_mc_bytes(m),
{
    match m {
        Some(m) => {
            write_u8(out, m.to_u8());
            assert(final(out)@ =~= old(out)@ + opt_mc_bytes(Some(m)));
        },
        None => {
            assert(old(out)@ + opt_mc_bytes(m) =~= old(out)@);
        },
    }
}

fn write_opt_subframe(out: &mut std::vec::Vec<u8>, s: &Option<SourceRouteSubframe>)
    ensures
        final(out)@ == old(out)@ + opt_subframe_bytes(
            match *s {
                Some(s) => Some(s@),
                None => None,
            },
        ),
{
    match s {
        Some(s) => {
            let ghost start = out@;
            write_u8(out, s.relay_count);
            write_u8(out, s.relay_index);
            write_u16_list(out, s.relay_list.as_slice());
            assert(out@ =~= start + subframe_bytes(s@));
        },
        None => {
            assert(old(out)@ + Seq::<u8>::empty() =~= old(out)@);
        },
    }
}

impl NwkHeaderView {
    /// The header's bytes.
    pub open spec fn spec_bytes(self) -> Seq<u8> {
        u16_le(self.control.spec_to_u16()) + u16_le(self.destination.0) + u16_le(self.source.0)
            + seq![self.radius, self.sequence_number] + opt_ext_bytes(self.destination_ieee)
            + opt_ext_bytes(self.source_ieee) + opt_mc_bytes(self.multicast_control)
            + opt_subframe_bytes(self.source_route_subframe)
    }

    /// The flags of the control field announce exactly the optional parts
    /// present, and every field fits its bits.
    pub open spec fn spec_wf(self) -> bool {
        &&& self.control.version < 16
        &&& self.control.dst_ext_addr == self.destination_ieee.is_some()
        &&& self.control.src_ext_addr == self.source_ieee.is_some()
        &&& self.control.multicast == self.multicast_control.is_some()
        &&& self.control.source_route == self.source_route_subframe.is_some()
        &&& (self.multicast_control matches Some(m) ==> m.spec_wf())
        &&& (self.source_route_subframe matches Some(s) ==> s.relay_count == s.relay_list.len()
            && s.relay_list.len() <= 32)
    }
}

/// `n` values of 16 bits at `off`.
pub open spec fn spec_u16_list(s: Seq<u8>, off: int, n: nat) -> Result<Seq<u16>, ParseError> {
    if 0 <= off && off + 2 * n <= s.len() {
        Ok(Seq::new(n, |i: int| le_value(s.subrange(off + 2 * i, off + 2 * i + 2)) as u16))
    } else {
        Err(ParseError::Incomplete)
    }
}

pub open spec fn spec_opt_ext(s: Seq<u8>, off: int, present: bool) -> Result<
    (Option<ExtendedAddress>, int),
    ParseError,
> {
    if !present {
        Ok((None, off))
    } else {
        match spec_u64_at(s, off) {
            Ok(v) => Ok((Some(ExtendedAddress(v)), off + 8)),
            Err(e) => Err(e),
        }
    }
}

pub open spec fn spec_opt_multicast(s: Seq<u8>, off: int, present: bool) -> Result<
    (Option<MulticastControl>, int),
    ParseError,
> {
    if !present {
        Ok((None, off))
    } else {
        match spec_u8_at(s, off) {
            Ok(v) => match MulticastControl::spec_from_u8(v) {
                Ok(m) => Ok((Some(m), off + 1)),
                Err(e) => Err(e),
            },
            Err(e) => Err(e),
        }
    }
}

pub open spec fn spec_opt_subframe(s: Seq<u8>, off: int, present: bool) -> Result<
    (Option<SourceRouteSubframeView>, int),
    ParseError,
> {
    if !present {
        Ok((None, off))
    } else {
        match spec_u8_at(s, off) {
            Err(e) => Err(e),
            Ok(count) => match spec_u8_at(s, off + 1) {
                Err(e) => Err(e),
                Ok(index) => if count > 32 {
                    Err(ParseError::BadInput)
                } else {
                    match spec_u16_list(s, off + 2, count as nat) {
                        Err(e) => Err(e),
                        Ok(list) => Ok(
                            (
                                Some(
                                    SourceRouteSubframeView {
                                        relay_count: count,
                                        relay_index: index,
                                        relay_list: list,
                                    },
                                ),
                                off + 2 + 2 * count,
                            ),
                        ),
                    }
                },
            },
        }
    }
}

/// The header at the start of `s`, and its length.
pub open spec fn spec_parse_header(s: Seq<u8>) -> Result<(NwkHeaderView, int), ParseError> {
    match spec_u16_at(s, 0) {
        Err(e) => Err(e),
        Ok(fcv) => match FrameControl::spec_from_u16(fcv) {
            Err(e) => Err(e),
            Ok(fc) => match spec_u16_at(s, 2) {
                Err(e) => Err(e),
                Ok(dst) => match spec_u16_at(s, 4) {
                    Err(e) => Err(e),
                    Ok(src) => match spec_u8_at(s, 6) {
                        Err(e) => Err(e),
                        Ok(radius) => match spec_u8_at(s, 7) {
                            Err(e) => Err(e),
                            Ok(seq) => match spec_opt_ext(s, 8, fc.dst_ext_addr) {
                                Err(e) => Err(e),
                                Ok((dst_ieee, o1)) => match spec_opt_ext(s, o1, fc.src_ext_addr) {
                                    Err(e) => Err(e),
                                    Ok((src_ieee, o2)) => match spec_opt_multicast(
                                        s,
                                        o2,
                                        fc.multicast,
                                    ) {
                                        Err(e) => Err(e),
                                        Ok((mc, o3)) => match spec_opt_subframe(
                                            s,
                                            o3,
                                            fc.source_route,
                                        ) {
                                            Err(e) => Err(e),
                                            Ok((sr, o4)) => Ok(
                                                (
                                                    NwkHeaderView {
                                                        control: fc,
                                                        destination: NwkAddress(dst),
                                                        source: NwkAddress(src),
                                                        radius,
                                                        sequence_number: seq,
                                                        destination_ieee: dst_ieee,
                                                        source_ieee: src_ieee,
                                                        multicast_control: mc,
                                                        source_route_subframe: sr,
                                                    },
                                                    o4,
                                                ),
                                            ),
                                        },
                                    },
                                },
                            },
                        },
                    },
                },
            },
        },
    }
}

fn parse_u16_list(bytes: &[u8], off: usize, n: u8) -> (r: Result<Vec<u16, 32>, ParseError>)
    requires
        n <= 32,
    ensures
        match r {
            Ok(v) => spec_u16_list(bytes@, off as int, n as nat) == Ok::<Seq<u16>, ParseError>(
                v@,
            ),
            Err(e) => spec_u16_list(bytes@, off as int, n as nat) == Err::<Seq<u16>, ParseError>(e),
        },
{
    let n = n as usize;
    if !(off <= bytes.len() && bytes.len() - off >= 2 * n) {
        return Err(ParseError::Incomplete);
    }
    let blen = bytes.len();
    let mut list: Vec<u16, 32> = Vec::new();
    let mut i: usize = 0;
    while i < n
        invariant
            i <= n <= 32,
            blen == bytes@.len(),
            off + 2 * n <= bytes@.len(),
            list@ == Seq::new(
                i as nat,
                |k: int| le_value(bytes@.subrange(off + 2 * k, off + 2 * k + 2)) as u16,
            ),
        decreases n - i,
    {
        let v = match u16_at(bytes, off + 2 * i) {
            Ok(v) => v,
            Err(e) => {
                return Err(e);
            },
        };
        let pushed = list.push(v);
        i = i + 1;
        proof {
            assert(list@ =~= Seq::new(
                i as nat,
                |k: int| le_value(bytes@.subrange(off + 2 * k, off + 2 * k + 2)) as u16,
            ));
        }
    }
    Ok(list)
}

fn parse_opt_ext(bytes: &[u8], off: usize, present: bool) -> (r: Result<
    (Option<ExtendedAddress>, usize),
    ParseError,
>)
    ensures
        match r {
            Ok((v, o)) => spec_opt_ext(bytes@, off as int, present) == Ok::<
                (Option<ExtendedAddress>, int),
                ParseError,
            >((v, o as int)),
            Err(e) => spec_opt_ext(bytes@, off as int, present) == Err::<
                (Option<ExtendedAddress>, int),
                ParseError,
            >(e),
        },
{
    if !present {
        return Ok((None, off));
    }
    match u64_at(bytes, off) {
        Ok(v) => Ok((Some(ExtendedAddress(v)), off + 8)),
        Err(e) => Err(e),
    }
}

impl NwkHeader {
    /// Reads the header at the start of `bytes`; returns it with its length.
    pub fn parse(bytes: &[u8]) -> (r: Result<(NwkHeader, usize), ParseError>)
        ensures
            match r {
                Ok((h, n)) => spec_parse_header(bytes@) == Ok::<(NwkHeaderView, int), ParseError>(
                    (h@, n as int),
                ),
                Err(e) => spec_parse_header(bytes@) == Err::<(NwkHeaderView, int), ParseError>(e),
            },
    {
        let fcv = match u16_at(bytes, 0) {
            Ok(v) => v,
            Err(e) => return Err(e),
        };
        let control = match FrameControl::from_u16(fcv) {
            Ok(v) => v,
            Err(e) => return Err(e),
        };
        let dst = match u16_at(bytes, 2) {
            Ok(v) => v,
            Err(e) => return Err(e),
        };
        let src = match u16_at(bytes, 4) {
            Ok(v) => v,
            Err(e) => return Err(e),
        };
        let radius = match u8_at(bytes, 6) {
            Ok(v) => v,
            Err(e) => return Err(e),
        };
        let seq = match u8_at(bytes, 7) {
            Ok(v) => v,
            Err(e) => return Err(e),
        };
        let (destination_ieee, o1) = match parse_opt_ext(bytes, 8, control.dst_ext_addr) {
            Ok(v) => v,
            Err(e) => return Err(e),
        };
        let (source_ieee, o2) = match parse_opt_ext(bytes, o1, control.src_ext_addr) {
            Ok(v) => v,
            Err(e) => return Err(e),
        };
        let (multicast_control, o3) = if control.multicast {
            let b = match u8_at(bytes, o2) {
                Ok(v) => v,
                Err(e) => return Err(e),
            };
            match MulticastControl::from_u8(b) {
                Ok(m) => (Some(m), o2 + 1),
                Err(e) => return Err(e),
            }
        } else {
            (None, o2)
        };
        let (source_route_subframe, o4) = if control.source_route {
            let count = match u8_at(bytes, o3) {
                Ok(v) => v,
                Err(e) => return Err(e),
            };
            let index = match u8_at(bytes, o3 + 1) {
                Ok(v) => v,
                Err(e) => return Err(e),
            };
            if count > 32 {
                return Err(ParseError::BadInput);
            }
            let list = match parse_u16_list(bytes, o3 + 2, count) {
                Ok(v) => v,
                Err(e) => return Err(e),
            };
            (
                Some(
                    SourceRouteSubframe {
                        relay_count: count,
                        relay_index: index,
                        relay_list: list,
                    },
                ),
                o3 + 2 + 2 * (count as usize),
            )
        } else {
            (None, o3)
        };
        let h = NwkHeader {
            control,
            destination: NwkAddress(dst),
            source: NwkAddress(src),
            radius,
            sequence_number: seq,
            destination_ieee,
            source_ieee,
            multicast_control,
            source_route_subframe,
        };
        Ok((h, o4))
    }

    /// Appends the header's bytes.
    pub fn serialize(&self, out: &mut std::vec::Vec<u8>)
        ensures
            final(out)@ == old(out)@ + self@.spec_bytes(),
    {
        let ghost v = self@;
        let ghost start = out@;
        write_u16(out, self.control.to_u16());
        write_u16(out, self.destination.0);
        write_u16(out, self.source.0);
        write_u8(out, self.radius);
        write_u8(out, self.sequence_number);
        let ghost p0 = u16_le(v.control.spec_to_u16()) + u16_le(v.destination.0) + u16_le(
            v.source.0,
        ) + seq![v.radius, v.sequence_number];
        assert(out@ =~= start + p0);
        write_opt_ext(out, self.destination_ieee);
        proof {
            vstd::seq_lib::lemma_concat_associative(start, p0, opt_ext_bytes(v.destination_ieee));
        }
        let ghost p1 = p0 + opt_ext_bytes(v.destination_ieee);
        write_opt_ext(out, self.source_ieee);
        proof {
            vstd::seq_lib::lemma_concat_associative(start, p1, opt_ext_bytes(v.source_ieee));
        }
        let ghost p2 = p1 + opt_ext_bytes(v.source_ieee);
        write_opt_multicast(out, self.multicast_control);
        proof {
            vstd::seq_lib::lemma_concat_associative(start, p2, opt_mc_bytes(v.multicast_control));
        }
        let ghost p3 = p2 + opt_mc_bytes(v.multicast_control);
        write_opt_subframe(out, &self.source_route_subframe);
        proof {
            vstd::seq_lib::lemma_concat_associative(
                start,
                p3,
                opt_subframe_bytes(v.source_route_subframe),
            );
        }
    }

    /// A copy of the header.
    pub fn copy(&self) -> (r: NwkHeader)
        ensures
            r@ == self@,
    {
        NwkHeader {
            control: self.control,
            destination: self.destination,
            source: self.source,
            radius: self.radius,
            sequence_number: self.sequence_number,
            destination_ieee: self.destination_ieee,
            source_ieee: self.source_ieee,
            multicast_control: self.multicast_control,
            source_route_subframe: match &self.source_route_subframe {
                Some(s) => Some(s.copy()),
                None => None,
            },
        }
    }
}

/// What a new header takes from the device that sends it: its short and
/// extended addresses, the depth bound of its stack profile and its frame
/// sequence counter.
pub struct HeaderContext {
    pub addr: NwkAddress,
    pub ext_addr: ExtendedAddress,
    pub max_depth: u8,
    pub seq_number: u8,
}

/// The sequence number after `n`, wrapping.
pub open spec fn spec_next_seq(n: u8) -> u8 {
    if n == 255 {
        0
    } else {
        (n + 1) as u8
    }
}

/// The header of a secured command frame of the device `ctx` describes,
/// with its next sequence number (see [`NwkHeader::cmd`]).
pub open spec fn spec_cmd_header(
    ctx: HeaderContext,
    destination: NwkAddress,
    destination_ieee: Option<ExtendedAddress>,
    radius: Option<u8>,
) -> NwkHeaderView {
    NwkHeaderView {
        control: FrameControl {
            frame_type: FrameType::NwkCommand,
            version: 2,
            route_discovery: DiscoverRoute::Suppress,
            multicast: false,
            security: true,
            source_route: false,
            dst_ext_addr: destination_ieee is Some,
            src_ext_addr: true,
            end_device_initiator: false,
        },
        destination,
        source: ctx.addr,
        radius: match radius {
            Some(x) => x,
            None => (ctx.max_depth * 2) as u8,
        },
        sequence_number: ctx.seq_number,
        destination_ieee,
        source_ieee: Some(ctx.ext_addr),
        multicast_control: None,
        source_route_subframe: None,
    }
}

impl HeaderContext {
    /// The next frame sequence number; the counter moves on, wrapping.
    pub fn get_next_seq_number(&mut self) -> (r: u8)
        ensures
            r == old(self).seq_number,
            final(self).seq_number == (if old(self).seq_number == 255 {
                0
            } else {
                old(self).seq_number + 1
            }),
            final(self).addr == old(self).addr,
            final(self).ext_addr == old(self).ext_addr,
            final(self).max_depth == old(self).max_depth,
    {
        let r = self.seq_number;
        self.seq_number = if r == 255 {
            0
        } else {
            r + 1
        };
        r
    }
}

impl NwkHeader {
    /// A header of version 2 that is not multicast and not sent by an end
    /// device. The flags follow the optional parts given; what is not
    /// given is this device's own: its short address as the source, twice
    /// its profile's depth bound as the radius, and its next sequence
    /// number (the counter moves on only then).
    pub fn new(
        ctx: &mut HeaderContext,
        frame_type: FrameType,
        security: bool,
        route_discovery: bool,
        destination: NwkAddress,
        destination_ieee: Option<ExtendedAddress>,
        source_ieee: Option<ExtendedAddress>,
        source_route_subframe: Option<SourceRouteSubframe>,
        source: Option<NwkAddress>,
        sequence_number: Option<u8>,
        radius: Option<u8>,
    ) -> (r: NwkHeader)
        requires
            radius is None ==> old(ctx).max_depth * 2 <= 255,
        ensures
            r.control == (FrameControl {
                frame_type,
                version: 2,
                route_discovery: if route_discovery {
                    DiscoverRoute::Enable
                } else {
                    DiscoverRoute::Suppress
                },
                multicast: false,
                security,
                source_route: source_route_subframe is Some,
                dst_ext_addr: destination_ieee is Some,
                src_ext_addr: source_ieee is Some,
                end_device_initiator: false,
            }),
            r.destination == destination,
            r.source == (match source {
                Some(a) => a,
                None => old(ctx).addr,
            }),
            r.radius == (match radius {
                Some(x) => x,
                None => (old(ctx).max_depth * 2) as u8,
            }),
            r.sequence_number == (match sequence_number {
                Some(x) => x,
                None => old(ctx).seq_number,
            }),
            r.destination_ieee == destination_ieee,
            r.source_ieee == source_ieee,
            r.multicast_control is None,
            r.source_route_subframe == source_route_subframe,
            final(ctx).addr == old(ctx).addr,
            final(ctx).ext_addr == old(ctx).ext_addr,
            final(ctx).max_depth == old(ctx).max_depth,
            final(ctx).seq_number == (match sequence_number {
                Some(_) => old(ctx).seq_number,
                None => if old(ctx).seq_number == 255 {
                    0
                } else {
                    (old(ctx).seq_number + 1) as u8
                },
            }),
    {
        let control = FrameControl {
            frame_type,
            version: 2,
            route_discovery: if route_discovery {
                DiscoverRoute::Enable
            } else {
                DiscoverRoute::Suppress
            },
            multicast: false,
            security,
            source_route: source_route_subframe.is_some(),
            dst_ext_addr: destination_ieee.is_some(),
            src_ext_addr: source_ieee.is_some(),
            end_device_initiator: false,
        };
        let source = match source {
            Some(a) => a,
            None => ctx.addr,
        };
        let radius = match radius {
            Some(x) => x,
            None => ctx.max_depth * 2,
        };
        let sequence_number = match sequence_number {
            Some(x) => x,
            None => ctx.get_next_seq_number(),
        };
        NwkHeader {
            destination,
            source,
            radius,
            sequence_number,
            destination_ieee,
            source_ieee,
            multicast_control: None,
            source_route_subframe,
            control,
        }
    }

    /// A header for a command frame of this device (see
    /// [`NwkHeader::new`]): route discovery suppressed, this device's
    /// extended address as the source's.
    pub fn cmd(
        ctx: &mut HeaderContext,
        security: bool,
        destination: NwkAddress,
        destination_ieee: Option<ExtendedAddress>,
        source_route_subframe: Option<SourceRouteSubframe>,
        sequence_number: Option<u8>,
        radius: Option<u8>,
    ) -> (r: NwkHeader)
        requires
            radius is None ==> old(ctx).max_depth * 2 <= 255,
        ensures
            r.control.frame_type == FrameType::NwkCommand,
            r.control.route_discovery == DiscoverRoute::Suppress,
            r.control.security == security,
            r.control.src_ext_addr,
            r.control.dst_ext_addr == destination_ieee is Some,
            r.control.source_route == source_route_subframe is Some,
            !r.control.multicast,
            !r.control.end_device_initiator,
            r.control.version == 2,
            r.destination == destination,
            r.source == old(ctx).addr,
            r.source_ieee == Some(old(ctx).ext_addr),
            r.destination_ieee == destination_ieee,
            r.source_route_subframe == source_route_subframe,
            r.multicast_control is None,
            r.radius == (match radius {
                Some(x) => x,
                None => (old(ctx).max_depth * 2) as u8,
            }),
            r.sequence_number == (match sequence_number {
                Some(x) => x,
                None => old(ctx).seq_number,
            }),
            security && source_route_subframe is None && sequence_number is None ==> r@ == spec_cmd_header(
                *old(ctx),
                destination,
                destination_ieee,
                radius,
            ),
            final(ctx).addr == old(ctx).addr,
            final(ctx).ext_addr == old(ctx).ext_addr,
            final(ctx).max_depth == old(ctx).max_depth,
            final(ctx).seq_number == (match sequence_number {
                Some(_) => old(ctx).seq_number,
                None => spec_next_seq(old(ctx).seq_number),
            }),
    {
        let ext_addr = ctx.ext_addr;
        NwkHeader::new(
            ctx,
            FrameType::NwkCommand,
            security,
            false,
            destination,
            destination_ieee,
            Some(ext_addr),
            source_route_subframe,
            None,
            sequence_number,
            radius,
        )
    }
}

/// Appends two bytes for each value.
pub fn write_u16_list(out: &mut std::vec::Vec<u8>, list: &[u16])
    ensures
        final(out)@ == old(out)@ + u16s_bytes(list@),
{
    let ghost start = out@;
    let mut i: usize = 0;
    proof {
        assert(list@.subrange(0, 0) =~= Seq::<u16>::empty());
        assert(out@ =~= start + u16s_bytes(list@.subrange(0, 0)));
    }
    while i < list.len()
        invariant
            i <= list@.len(),
            out@ == start + u16s_bytes(list@.subrange(0, i as int)),
        decreases list@.len() - i,
    {
        write_u16(out, list[i]);
        proof {
            let s = list@.subrange(0, i + 1);
            assert(s.drop_last() =~= list@.subrange(0, i as int));
            assert(s.last() == list@[i as int]);
        }
        i = i + 1;
    }
    proof {
        assert(list@.subrange(0, list@.len() as int) =~= list@);
    }
}

/// The bytes of a list of 16-bit values hold each value at its place.
pub proof fn lemma_u16s_bytes(list: Seq<u16>)
    ensures
        u16s_bytes(list).len() == 2 * list.len(),
        forall|k: int|
            0 <= k < list.len() ==> #[trigger] u16s_bytes(list).subrange(2 * k, 2 * k + 2)
                == u16_le(list[k]),
    decreases list.len(),
{
    if list.len() > 0 {
        let init = list.drop_last();
        lemma_u16s_bytes(init);
        crate::bytes::lemma_le_len(list.last() as nat, 2);
        let b = u16s_bytes(list);
        assert(b == u16s_bytes(init) + u16_le(list.last()));
        assert forall|k: int| 0 <= k < list.len() implies #[trigger] b.subrange(2 * k, 2 * k + 2)
            == u16_le(list[k]) by {
            if k < init.len() {
                assert(b.subrange(2 * k, 2 * k + 2) =~= u16s_bytes(init).subrange(2 * k, 2 * k + 2));
            } else {
                assert(b.subrange(2 * k, 2 * k + 2) =~= u16_le(list.last()));
            }
        }
    }
}

/// Where the bytes of a list stand, the list is read back.
pub proof fn lemma_u16_list_read_back(s: Seq<u8>, off: int, list: Seq<u16>)
    requires
        0 <= off,
        off + u16s_bytes(list).len() <= s.len(),
        s.subrange(off, off + u16s_bytes(list).len()) == u16s_bytes(list),
    ensures
        spec_u16_list(s, off, list.len()) == Ok::<Seq<u16>, ParseError>(list),
{
    lemma_u16s_bytes(list);
    let b = u16s_bytes(list);
    let got = Seq::new(list.len(), |i: int| le_value(s.subrange(off + 2 * i, off + 2 * i + 2)) as u16);
    assert forall|k: int| 0 <= k < list.len() implies got[k] == list[k] by {
        assert(s.subrange(off + 2 * k, off + 2 * k + 2) =~= b.subrange(2 * k, 2 * k + 2));
        crate::bytes::lemma_u16_read_back(s, off + 2 * k, list[k]);
    }
    assert(got =~= list);
}

proof fn lemma_opt_ext_read(s: Seq<u8>, off: int, a: Option<ExtendedAddress>)
    requires
        0 <= off,
        off + opt_ext_bytes(a).len() <= s.len(),
        s.subrange(off, off + opt_ext_bytes(a).len()) == opt_ext_bytes(a),
    ensures
        spec_opt_ext(s, off, a.is_some()) == Ok::<(Option<ExtendedAddress>, int), ParseError>(
            (a, off + opt_ext_bytes(a).len()),
        ),
{
    if let Some(x) = a {
        crate::bytes::lemma_le_len(x.0 as nat, 8);
        crate::bytes::lemma_u64_read_back(s, off, x.0);
    }
}

proof fn lemma_opt_mc_read(s: Seq<u8>, off: int, m: Option<MulticastControl>)
    requires
        0 <= off,
        off + opt_mc_bytes(m).len() <= s.len(),
        s.subrange(off, off + opt_mc_bytes(m).len()) == opt_mc_bytes(m),
        m matches Some(m) ==> m.spec_wf(),
    ensures
        spec_opt_multicast(s, off, m.is_some()) == Ok::<(Option<MulticastControl>, int), ParseError>(
            (m, off + opt_mc_bytes(m).len()),
        ),
{
    if let Some(x) = m {
        assert(s[off] == s.subrange(off, off + 1)[0]);
        let v = x.spec_to_u8();
        let mode: u8 = if x.multicast_mode == MulticastMode::Member {
            1
        } else {
            0
        };
        assert(v == mode + 4 * x.non_member_radius + 32 * x.max_non_member_radius);
        assert(MulticastControl::spec_from_u8(v) == Ok::<MulticastControl, ParseError>(x));
    }
}

proof fn lemma_opt_subframe_read(s: Seq<u8>, off: int, sr: Option<SourceRouteSubframeView>)
    requires
        0 <= off,
        off + opt_subframe_bytes(sr).len() <= s.len(),
        s.subrange(off, off + opt_subframe_bytes(sr).len()) == opt_subframe_bytes(sr),
        sr matches Some(x) ==> x.relay_count == x.relay_list.len() && x.relay_list.len() <= 32,
    ensures
        spec_opt_subframe(s, off, sr.is_some()) == Ok::<
            (Option<SourceRouteSubframeView>, int),
            ParseError,
        >((sr, off + opt_subframe_bytes(sr).len())),
{
    if let Some(x) = sr {
        lemma_u16s_bytes(x.relay_list);
        let b = opt_subframe_bytes(sr);
        assert(s[off] == b[0]);
        assert(s[off + 1] == b[1]);
        let lb = u16s_bytes(x.relay_list);
        assert(s.subrange(off + 2, off + 2 + lb.len()) =~= b.subrange(2, 2 + lb.len() as int));
        assert(b.subrange(2, 2 + lb.len() as int) =~= lb);
        lemma_u16_list_read_back(s, off + 2, x.relay_list);
    }
}

proof fn lemma_fixed_read(h: NwkHeaderView, s: Seq<u8>)
    requires
        h.control.version < 16,
        8 <= s.len(),
        s.subrange(0, 8) == u16_le(h.control.spec_to_u16()) + u16_le(h.destination.0) + u16_le(
            h.source.0,
        ) + seq![h.radius, h.sequence_number],
    ensures
        spec_u16_at(s, 0) == Ok::<u16, ParseError>(h.control.spec_to_u16()),
        FrameControl::spec_from_u16(h.control.spec_to_u16()) == Ok::<FrameControl, ParseError>(
            h.control,
        ),
        spec_u16_at(s, 2) == Ok::<u16, ParseError>(h.destination.0),
        spec_u16_at(s, 4) == Ok::<u16, ParseError>(h.source.0),
        spec_u8_at(s, 6) == Ok::<u8, ParseError>(h.radius),
        spec_u8_at(s, 7) == Ok::<u8, ParseError>(h.sequence_number),
{
    let fcv = h.control.spec_to_u16();
    crate::bytes::lemma_le_len(fcv as nat, 2);
    crate::bytes::lemma_le_len(h.destination.0 as nat, 2);
    crate::bytes::lemma_le_len(h.source.0 as nat, 2);
    let p = s.subrange(0, 8);
    assert(s.subrange(0, 2) =~= p.subrange(0, 2));
    assert(p.subrange(0, 2) =~= u16_le(fcv));
    crate::bytes::lemma_u16_read_back(s, 0, fcv);
    lemma_frame_control_roundtrip(h.control);
    assert(s.subrange(2, 4) =~= p.subrange(2, 4));
    assert(p.subrange(2, 4) =~= u16_le(h.destination.0));
    crate::bytes::lemma_u16_read_back(s, 2, h.destination.0);
    assert(s.subrange(4, 6) =~= p.subrange(4, 6));
    assert(p.subrange(4, 6) =~= u16_le(h.source.0));
    crate::bytes::lemma_u16_read_back(s, 4, h.source.0);
    assert(s[6] == p[6]);
    assert(s[7] == p[7]);
}

/// Reading the bytes of a well-formed header gives back the header, and
/// tells how long it is, whatever follows it.
#[verifier::rlimit(40)]
pub proof fn lemma_header_roundtrip(h: NwkHeaderView, rest: Seq<u8>)
    requires
        h.spec_wf(),
    ensures
        spec_parse_header(h.spec_bytes() + rest) == Ok::<(NwkHeaderView, int), ParseError>(
            (h, h.spec_bytes().len() as int),
        ),
{
    let fcv = h.control.spec_to_u16();
    let p0 = u16_le(fcv) + u16_le(h.destination.0) + u16_le(h.source.0) + seq![
        h.radius,
        h.sequence_number,
    ];
    let e1 = opt_ext_bytes(h.destination_ieee);
    let e2 = opt_ext_bytes(h.source_ieee);
    let e3 = opt_mc_bytes(h.multicast_control);
    let e4 = opt_subframe_bytes(h.source_route_subframe);
    let b = h.spec_bytes();
    let s = b + rest;
    crate::bytes::lemma_le_len(fcv as nat, 2);
    crate::bytes::lemma_le_len(h.destination.0 as nat, 2);
    crate::bytes::lemma_le_len(h.source.0 as nat, 2);
    assert(p0.len() == 8);
    let o1: int = 8 + e1.len() as int;
    let o2: int = o1 + e2.len();
    let o3: int = o2 + e3.len();
    let o4: int = o3 + e4.len();
    assert(b == p0 + e1 + e2 + e3 + e4);
    assert(b.len() == o4);
    assert(s.subrange(0, 8) =~= p0);
    lemma_fixed_read(h, s);
    assert(s.subrange(8, o1) =~= e1);
    lemma_opt_ext_read(s, 8, h.destination_ieee);
    assert(s.subrange(o1, o2) =~= e2);
    lemma_opt_ext_read(s, o1, h.source_ieee);
    assert(s.subrange(o2, o3) =~= e3);
    lemma_opt_mc_read(s, o2, h.multicast_control);
    assert(s.subrange(o3, o4) =~= e4);
    lemma_opt_subframe_read(s, o3, h.source_route_subframe);
}
/// A header that was read ends within the input.
pub proof fn lemma_parse_header_len(s: Seq<u8>)
    ensures
        spec_parse_header(s) matches Ok((h, n)) ==> 8 <= n <= s.len(),
{
    if let Ok((h, n)) = spec_parse_header(s) {
        let fc = FrameControl::spec_from_u16(spec_u16_at(s, 0)->Ok_0)->Ok_0;
        let (d, o1) = spec_opt_ext(s, 8, fc.dst_ext_addr)->Ok_0;
        let (e, o2) = spec_opt_ext(s, o1, fc.src_ext_addr)->Ok_0;
        let (m, o3) = spec_opt_multicast(s, o2, fc.multicast)->Ok_0;
        assert(8 <= o1 <= s.len());
        assert(o1 <= o2 <= s.len());
        assert(o2 <= o3 <= s.len());
        if fc.source_route {
            let count = spec_u8_at(s, o3)->Ok_0;
            assert(spec_u16_list(s, o3 + 2, count as nat) is Ok);
        }
    }
}

/// Each frame type is written with its Zigbee code.
pub proof fn lemma_frame_type_codes(x: FrameType)
    ensures
        x is Data ==> x.spec_code() == 0u16,
        x is NwkCommand ==> x.spec_code() == 1u16,
        x is Reserved ==> x.spec_code() == 2u16,
        x is InterPan ==> x.spec_code() == 3u16,
{
}

/// The frame control field: the frame type code in bits 0 and 1, the
/// version in bits 2 to 5, route discovery in bits 6 and 7 (1 where
/// enabled), then multicast, security, source route, destination and
/// source extended addresses and end device initiator in bits 8 to 13.
pub proof fn lemma_frame_control_bits(fc: FrameControl)
    ensures
        fc.spec_to_u16() % 4 == fc.frame_type.spec_code(),
        (fc.spec_to_u16() / 4) % 16 == fc.version % 16,
        (fc.spec_to_u16() / 64) % 4 == (if fc.route_discovery == DiscoverRoute::Enable { 1int } else { 0int }),
        (fc.spec_to_u16() / 0x100) % 2 == (if fc.multicast { 1int } else { 0int }),
        (fc.spec_to_u16() / 0x200) % 2 == (if fc.security { 1int } else { 0int }),
        (fc.spec_to_u16() / 0x400) % 2 == (if fc.source_route { 1int } else { 0int }),
        (fc.spec_to_u16() / 0x800) % 2 == (if fc.dst_ext_addr { 1int } else { 0int }),
        (fc.spec_to_u16() / 0x1000) % 2 == (if fc.src_ext_addr { 1int } else { 0int }),
        (fc.spec_to_u16() / 0x2000) % 2 == (if fc.end_device_initiator { 1int } else { 0int }),
        fc.spec_to_u16() < 0x4000,
{
    lemma_frame_type_codes(fc.frame_type);
    let a: int = fc.frame_type.spec_code() as int;
    let b: int = (fc.version % 16) as int;
    let c: int = if fc.route_discovery == DiscoverRoute::Enable { 1 } else { 0 };
    let d0: int = if fc.multicast { 1 } else { 0 };
    let d1: int = if fc.security { 1 } else { 0 };
    let d2: int = if fc.source_route { 1 } else { 0 };
    let d3: int = if fc.dst_ext_addr { 1 } else { 0 };
    let d4: int = if fc.src_ext_addr { 1 } else { 0 };
    let d5: int = if fc.end_device_initiator { 1 } else { 0 };
    let q5 = d5;
    let q4 = d4 + 2 * q5;
    let q3 = d3 + 2 * q4;
    let q2 = d2 + 2 * q3;
    let q1 = d1 + 2 * q2;
    let q0 = d0 + 2 * q1;
    let qc = c + 4 * q0;
    let qb = b + 16 * qc;
    let v = a + 4 * qb;
    assert(v < 0x4000);
    assert(fc.spec_to_u16() as int == v);
    lemma_split(v, 4, a, qb);
    lemma_split(qb, 16, b, qc);
    lemma_split(qc, 4, c, q0);
    lemma_split(q0, 2, d0, q1);
    lemma_split(q1, 2, d1, q2);
    lemma_split(q2, 2, d2, q3);
    lemma_split(q3, 2, d3, q4);
    lemma_split(q4, 2, d4, q5);
    lemma_split(q5, 2, d5, 0);
    lemma_div_div(v, 4, 16);
    lemma_div_div(v, 64, 4);
    lemma_div_div(v, 256, 2);
    lemma_div_div(v, 512, 2);
    lemma_div_div(v, 1024, 2);
    lemma_div_div(v, 2048, 2);
    lemma_div_div(v, 4096, 2);
}

/// A number `r + k q` with `0 <= r < k`: its remainder is `r`, its quotient `q`.
proof fn lemma_split(x: int, k: int, r: int, q: int)
    requires
        k > 0,
        0 <= r < k,
        q >= 0,
        x == r + k * q,
    ensures
        x % k == r,
        x / k == q,
{
    assert(x == q * k + r) by (nonlinear_arith)
        requires
            x == r + k * q,
    ;
    vstd::arithmetic::div_mod::lemma_fundamental_div_mod_converse(x, k, q, r);
}

/// Dividing by `m`, then by `n`, is dividing by `m n`.
proof fn lemma_div_div(x: int, m: int, n: int)
    requires
        x >= 0,
        m > 0,
        n > 0,
    ensures
        x / (m * n) == (x / m) / n,
{
    vstd::arithmetic::div_mod::lemma_div_denominator(x, m, n);
}

/// The multicast control byte: the mode in bits 0 and 1 (1 for member
/// mode), the non-member radius in bits 2 to 4, the maximum non-member
/// radius in bits 5 to 7.
pub proof fn lemma_multicast_control_bits(m: MulticastControl)
    ensures
        m.spec_to_u8() % 4 == (if m.multicast_mode == MulticastMode::Member { 1int } else { 0int }),
        (m.spec_to_u8() / 4) % 8 == m.non_member_radius % 8,
        m.spec_to_u8() / 32 == m.max_non_member_radius % 8,
{
}

/// The fixed part of a header: the frame control field, the destination,
/// the source, each low byte first, then the radius and the sequence
/// number; the optional fields follow.
pub proof fn lemma_header_layout(h: NwkHeaderView)
    ensures
        h.spec_bytes().len() >= 8,
        h.spec_bytes()[0] == (h.control.spec_to_u16() % 256) as u8,
        h.spec_bytes()[1] == (h.control.spec_to_u16() / 256) as u8,
        h.spec_bytes()[2] == (h.destination.0 % 256) as u8,
        h.spec_bytes()[3] == (h.destination.0 / 256) as u8,
        h.spec_bytes()[4] == (h.source.0 % 256) as u8,
        h.spec_bytes()[5] == (h.source.0 / 256) as u8,
        h.spec_bytes()[6] == h.radius,
        h.spec_bytes()[7] == h.sequence_number,
{
    crate::bytes::lemma_u16_le_bytes(h.control.spec_to_u16());
    crate::bytes::lemma_u16_le_bytes(h.destination.0);
    crate::bytes::lemma_u16_le_bytes(h.source.0);
    let head = u16_le(h.control.spec_to_u16()) + u16_le(h.destination.0) + u16_le(h.source.0) + seq![
        h.radius,
        h.sequence_number,
    ];
    assert(h.spec_bytes().subrange(0, 8) =~= head);
    assert(h.spec_bytes()[0] == h.spec_bytes().subrange(0, 8)[0]);
}

} // verus!

