//! NWK frames: a header followed by a data payload, a command, or nothing.
pub mod header;

use vstd::prelude::*;

use crate::bytes::ParseError;
use crate::collections::Vec;
use crate::common::NwkAddress;
use crate::nwk::commands::roundtrip::lemma_command_roundtrip;
use crate::nwk::commands::{spec_parse_command, Command, CommandView};
use crate::nwk::constants::MAX_NWK_PAYLOAD_SIZE;
use header::{spec_parse_header, DiscoverRoute, FrameType, NwkHeader, NwkHeaderView};

verus! {

/// A data frame: the header and up to 108 payload bytes.
pub struct NwkDataFrame {
    pub header: NwkHeader,
    pub payload: Vec<u8, MAX_NWK_PAYLOAD_SIZE>,
}

/// A command frame: the header and the command.
pub struct CommandFrame {
    pub header: NwkHeader,
    pub command: Command,
}

/// A NWK frame of any kind.
pub enum NwkFrame {
    Data(NwkDataFrame),
    NwkCommand(CommandFrame),
    Reserved(NwkHeader),
    InterPan(NwkHeader),
}

/// What a [`NwkFrame`] holds.
pub ghost enum NwkFrameView {
    Data(NwkHeaderView, Seq<u8>),
    NwkCommand(NwkHeaderView, CommandView),
    Reserved(NwkHeaderView),
    InterPan(NwkHeaderView),
}

impl NwkFrameView {
    pub open spec fn spec_header(self) -> NwkHeaderView {
        match self {
            NwkFrameView::Data(h, _) => h,
            NwkFrameView::NwkCommand(h, _) => h,
            NwkFrameView::Reserved(h) => h,
            NwkFrameView::InterPan(h) => h,
        }
    }

    /// The same frame under the header `h`.
    pub open spec fn with_header(self, h: NwkHeaderView) -> NwkFrameView {
        match self {
            NwkFrameView::Data(_, p) => NwkFrameView::Data(h, p),
            NwkFrameView::NwkCommand(_, c) => NwkFrameView::NwkCommand(h, c),
            NwkFrameView::Reserved(_) => NwkFrameView::Reserved(h),
            NwkFrameView::InterPan(_) => NwkFrameView::InterPan(h),
        }
    }

    /// A frame whose header is well formed and names the kind of body that
    /// follows it, with a payload that fits and a well-formed command.
    pub open spec fn spec_wf(self) -> bool {
        &&& self.spec_header().spec_wf()
        &&& match self {
            NwkFrameView::Data(h, p) => h.control.frame_type == FrameType::Data && p.len()
                <= MAX_NWK_PAYLOAD_SIZE,
            NwkFrameView::NwkCommand(h, c) => h.control.frame_type == FrameType::NwkCommand
                && c.spec_wf(),
            NwkFrameView::Reserved(h) => h.control.frame_type == FrameType::Reserved,
            NwkFrameView::InterPan(h) => h.control.frame_type == FrameType::InterPan,
        }
    }

    /// The frame's bytes: the header's, then the payload's or the command's.
    pub open spec fn spec_bytes(self) -> Seq<u8> {
        match self {
            NwkFrameView::Data(h, p) => h.spec_bytes() + p,
            NwkFrameView::NwkCommand(h, c) => h.spec_bytes() + c.spec_bytes(),
            NwkFrameView::Reserved(h) => h.spec_bytes(),
            NwkFrameView::InterPan(h) => h.spec_bytes(),
        }
    }
}

impl View for NwkFrame {
    type V = NwkFrameView;

    open spec fn view(&self) -> NwkFrameView {
        match self {
            NwkFrame::Data(d) => NwkFrameView::Data(d.header@, d.payload@),
            NwkFrame::NwkCommand(c) => NwkFrameView::NwkCommand(c.header@, c.command@),
            NwkFrame::Reserved(h) => NwkFrameView::Reserved(h@),
            NwkFrame::InterPan(h) => NwkFrameView::InterPan(h@),
        }
    }
}

/// The frame body that follows a header, as the header's frame type says,
/// from `off` on; and where it ends.
pub open spec fn spec_parse_body(s: Seq<u8>, off: int, h: NwkHeaderView) -> Result<
    (NwkFrameView, int),
    ParseError,
> {
    match h.control.frame_type {
        FrameType::Data => if s.len() - off > MAX_NWK_PAYLOAD_SIZE {
            Err(ParseError::BadInput)
        } else {
            Ok((NwkFrameView::Data(h, s.subrange(off, s.len() as int)), s.len() as int))
        },
        FrameType::NwkCommand => match spec_parse_command(s, off) {
            Ok((c, e)) => Ok((NwkFrameView::NwkCommand(h, c), e)),
            Err(e) => Err(e),
        },
        FrameType::Reserved => Ok((NwkFrameView::Reserved(h), off)),
        FrameType::InterPan => Ok((NwkFrameView::InterPan(h), off)),
    }
}

/// The frame at the start of `s`, and its length.
pub open spec fn spec_parse_frame(s: Seq<u8>) -> Result<(NwkFrameView, int), ParseError> {
    match spec_parse_header(s) {
        Err(e) => Err(e),
        Ok((h, n)) => spec_parse_body(s, n, h),
    }
}

impl NwkFrame {
    pub fn new_data_frame(header: NwkHeader, payload: Vec<u8, MAX_NWK_PAYLOAD_SIZE>) -> (r: Self)
        ensures
            r@ == NwkFrameView::Data(header@, payload@),
    {
        NwkFrame::Data(NwkDataFrame { header, payload })
    }

    pub fn new_cmd_frame(header: NwkHeader, command: Command) -> (r: Self)
        ensures
            r@ == NwkFrameView::NwkCommand(header@, command@),
    {
        NwkFrame::NwkCommand(CommandFrame { header, command })
    }

    pub fn header(&self) -> (r: &NwkHeader)
        ensures
            r@ == self@.spec_header(),
    {
        match self {
            NwkFrame::Data(d) => &d.header,
            NwkFrame::NwkCommand(c) => &c.header,
            NwkFrame::Reserved(h) => h,
            NwkFrame::InterPan(h) => h,
        }
    }

    /// The header, to change in place.
    pub fn header_mut(&mut self) -> (r: &mut NwkHeader)
        ensures
            (*r)@ == old(self)@.spec_header(),
            final(self)@ == old(self)@.with_header((*final(r))@),
    {
        match self {
            NwkFrame::Data(d) => &mut d.header,
            NwkFrame::NwkCommand(c) => &mut c.header,
            NwkFrame::Reserved(h) => h,
            NwkFrame::InterPan(h) => h,
        }
    }

    /// Replaces the header, keeping the rest of the frame.
    pub fn set_header(&mut self, header: NwkHeader)
        ensures
            final(self)@ == match old(self)@ {
                NwkFrameView::Data(_, p) => NwkFrameView::Data(header@, p),
                NwkFrameView::NwkCommand(_, c) => NwkFrameView::NwkCommand(header@, c),
                NwkFrameView::Reserved(_) => NwkFrameView::Reserved(header@),
                NwkFrameView::InterPan(_) => NwkFrameView::InterPan(header@),
            },
    {
        match self {
            NwkFrame::Data(d) => d.header = header,
            NwkFrame::NwkCommand(c) => c.header = header,
            NwkFrame::Reserved(h) => *h = header,
            NwkFrame::InterPan(h) => *h = header,
        }
    }

    pub fn dst_addr(&self) -> (r: NwkAddress)
        ensures
            r == self@.spec_header().destination,
    {
        self.header().destination
    }

    pub fn src_addr(&self) -> (r: NwkAddress)
        ensures
            r == self@.spec_header().source,
    {
        self.header().source
    }

    pub fn sequence_number(&self) -> (r: u8)
        ensures
            r == self@.spec_header().sequence_number,
    {
        self.header().sequence_number
    }

    pub fn is_secured(&self) -> (r: bool)
        ensures
            r == self@.spec_header().control.security,
    {
        self.header().control.security
    }

    pub fn is_multicast(&self) -> (r: bool)
        ensures
            r == self@.spec_header().control.multicast,
    {
        self.header().control.multicast
    }

    /// Not multicast, to a single device.
    pub fn is_unicast(&self) -> (r: bool)
        ensures
            r == (!self@.spec_header().control.multicast
                && !self@.spec_header().destination.spec_is_broadcast()),
    {
        !self.header().control.multicast && self.dst_addr().is_unicast()
    }

    /// To a broadcast address.
    pub fn is_broadcast(&self) -> (r: bool)
        ensures
            r == self@.spec_header().destination.spec_is_broadcast(),
    {
        self.dst_addr().is_broadcast()
    }

    pub fn is_route_discovery_enabled(&self) -> (r: bool)
        ensures
            r == (self@.spec_header().control.route_discovery == DiscoverRoute::Enable),
    {
        self.header().control.route_discovery == DiscoverRoute::Enable
    }

    /// Reads the body that follows `header`, from `off` on; returns the
    /// frame with the offset where it ends.
    pub fn parse_body(bytes: &[u8], off: usize, header: NwkHeader) -> (r: Result<
        (NwkFrame, usize),
        ParseError,
    >)
        requires
            off <= bytes@.len(),
        ensures
            match r {
                Ok((f, n)) => spec_parse_body(bytes@, off as int, header@) == Ok::<
                    (NwkFrameView, int),
                    ParseError,
                >((f@, n as int)),
                Err(e) => spec_parse_body(bytes@, off as int, header@) == Err::<
                    (NwkFrameView, int),
                    ParseError,
                >(e),
            },
    {
        match header.control.frame_type {
            FrameType::Data => {
                if bytes.len() - off > MAX_NWK_PAYLOAD_SIZE {
                    return Err(ParseError::BadInput);
                }
                let data = crate::bytes::copy_range(bytes, off, bytes.len());
                let payload = match Vec::<u8, MAX_NWK_PAYLOAD_SIZE>::from_slice(data.as_slice()) {
                    Ok(p) => {
                        proof {
                            assert(p@ =~= data@);
                        }
                        p
                    },
                    Err(_) => return Err(ParseError::BadInput),
                };
                Ok((NwkFrame::Data(NwkDataFrame { header, payload }), bytes.len()))
            },
            FrameType::NwkCommand => match Command::parse(bytes, off) {
                Ok((command, e)) => Ok((NwkFrame::NwkCommand(CommandFrame { header, command }), e)),
                Err(e) => Err(e),
            },
            FrameType::Reserved => Ok((NwkFrame::Reserved(header), off)),
            FrameType::InterPan => Ok((NwkFrame::InterPan(header), off)),
        }
    }

    /// Reads the frame at the start of `bytes`; returns it with its length.
    pub fn parse(bytes: &[u8]) -> (r: Result<(NwkFrame, usize), ParseError>)
        ensures
            match r {
                Ok((f, n)) => spec_parse_frame(bytes@) == Ok::<(NwkFrameView, int), ParseError>(
                    (f@, n as int),
                ),
                Err(e) => spec_parse_frame(bytes@) == Err::<(NwkFrameView, int), ParseError>(e),
            },
    {
        match NwkHeader::parse(bytes) {
            Err(e) => Err(e),
            Ok((h, n)) => {
                proof {
                    header::lemma_parse_header_len(bytes@);
                }
                NwkFrame::parse_body(bytes, n, h)
            },
        }
    }

    /// Appends the frame's bytes.
    pub fn serialize(&self, out: &mut std::vec::Vec<u8>)
        ensures
            final(out)@ == old(out)@ + self@.spec_bytes(),
    {
        let ghost start = out@;
        match self {
            NwkFrame::Data(d) => {
                d.header.serialize(out);
                let ghost mid = out@;
                crate::bytes::write_slice(out, d.payload.as_slice());
                assert(out@ =~= start + (d.header@.spec_bytes() + d.payload@));
            },
            NwkFrame::NwkCommand(c) => {
                c.header.serialize(out);
                c.command.serialize(out);
                assert(out@ =~= start + (c.header@.spec_bytes() + c.command@.spec_bytes()));
            },
            NwkFrame::Reserved(h) => h.serialize(out),
            NwkFrame::InterPan(h) => h.serialize(out),
        }
    }
}

/// Reading the bytes of a well-formed frame gives back the frame, and its
/// whole length.
pub proof fn lemma_frame_roundtrip(f: NwkFrameView)
    requires
        f.spec_wf(),
    ensures
        spec_parse_frame(f.spec_bytes()) == Ok::<(NwkFrameView, int), ParseError>(
            (f, f.spec_bytes().len() as int),
        ),
{
    let h = f.spec_header();
    let hb = h.spec_bytes();
    let s = f.spec_bytes();
    match f {
        NwkFrameView::Data(_, p) => {
            header::lemma_header_roundtrip(h, p);
            assert(s.subrange(hb.len() as int, s.len() as int) =~= p);
        },
        NwkFrameView::NwkCommand(_, c) => {
            header::lemma_header_roundtrip(h, c.spec_bytes());
            assert(s.subrange(hb.len() as int, s.len() as int) =~= c.spec_bytes());
            lemma_command_roundtrip(s, hb.len() as int, c);
        },
        NwkFrameView::Reserved(_) => {
            header::lemma_header_roundtrip(h, Seq::empty());
            assert(hb + Seq::<u8>::empty() =~= s);
        },
        NwkFrameView::InterPan(_) => {
            header::lemma_header_roundtrip(h, Seq::empty());
            assert(hb + Seq::<u8>::empty() =~= s);
        },
    }
}

} // verus!
