//! The cluster library frame: header and command.
use vstd::prelude::*;

use crate::bytes::{copy_range, spec_u16_at, spec_u8_at, u16_at, u8_at, write_le, write_slice, le_bytes, ParseError};
use crate::zcl::command::GlobalZclCommand;
use crate::zcl::global::{spec_parse_global, GlobalCommandView};

verus! {

/// Whether a frame's command is one of every cluster or one of its cluster.
#[derive(Clone, Copy, Debug, PartialEq, Eq, Structural)]
pub enum ZclFrameType {
    Global,
    Specific,
}

/// Which side of a cluster sent a frame.
#[derive(Clone, Copy, Debug, PartialEq, Eq, Structural)]
pub enum ZclDirection {
    ClientToServer,
    ServerToClient,
}

impl Default for ZclDirection {
    fn default() -> (r: Self)
        ensures
            r == ZclDirection::ClientToServer,
    {
        ZclDirection::ClientToServer
    }
}

/// The frame control byte: the frame type in bits 0-1, then the
/// manufacturer-specific, direction and disable-default-response flags.
#[derive(Clone, Copy, Debug, PartialEq, Eq, Structural)]
pub struct ZclFrameControl {
    pub frame_type: ZclFrameType,
    pub manufacturer_specific: bool,
    pub direction: ZclDirection,
    pub disable_default_response: bool,
}

pub open spec fn bit(b: bool, w: u8) -> u8 {
    if b {
        w
    } else {
        0
    }
}

impl ZclFrameControl {
    pub open spec fn spec_to_u8(self) -> u8 {
        (bit(self.frame_type == ZclFrameType::Specific, 1) + bit(self.manufacturer_specific, 4) + bit(
            self.direction == ZclDirection::ServerToClient,
            8,
        ) + bit(self.disable_default_response, 16)) as u8
    }

    /// Reads the frame control byte; frame types 2 and 3 are refused.
    pub open spec fn spec_from_u8(v: u8) -> Result<ZclFrameControl, ParseError> {
        if v % 4 >= 2 {
            Err(ParseError::BadInput)
        } else {
            Ok(
                ZclFrameControl {
                    frame_type: if v % 2 == 1 {
                        ZclFrameType::Specific
                    } else {
                        ZclFrameType::Global
                    },
                    manufacturer_specific: (v / 4) % 2 == 1,
                    direction: if (v / 8) % 2 == 1 {
                        ZclDirection::ServerToClient
                    } else {
                        ZclDirection::ClientToServer
                    },
                    disable_default_response: (v / 16) % 2 == 1,
                },
            )
        }
    }

    pub fn to_u8(&self) -> (r: u8)
        ensures
            r == self.spec_to_u8(),
    {
        let a: u8 = match self.frame_type {
            ZclFrameType::Specific => 1,
            ZclFrameType::Global => 0,
        };
        let b: u8 = if self.manufacturer_specific {
            4
        } else {
            0
        };
        let c: u8 = match self.direction {
            ZclDirection::ServerToClient => 8,
            ZclDirection::ClientToServer => 0,
        };
        let d: u8 = if self.disable_default_response {
            16
        } else {
            0
        };
        a + b + c + d
    }

    pub fn from_u8(v: u8) -> (r: Result<ZclFrameControl, ParseError>)
        ensures
            r == ZclFrameControl::spec_from_u8(v),
    {
        if v % 4 >= 2 {
            return Err(ParseError::BadInput);
        }
        Ok(
            ZclFrameControl {
                frame_type: if v % 2 == 1 {
                    ZclFrameType::Specific
                } else {
                    ZclFrameType::Global
                },
                manufacturer_specific: (v / 4) % 2 == 1,
                direction: if (v / 8) % 2 == 1 {
                    ZclDirection::ServerToClient
                } else {
                    ZclDirection::ClientToServer
                },
                disable_default_response: (v / 16) % 2 == 1,
            },
        )
    }

    /// The frame control byte reads back as itself.
    pub proof fn lemma_roundtrip(self)
        ensures
            ZclFrameControl::spec_from_u8(self.spec_to_u8()) == Ok::<ZclFrameControl, ParseError>(self),
    {
    }
}

impl Default for ZclFrameControl {
    fn default() -> (r: Self)
        ensures
            r == (ZclFrameControl {
                frame_type: ZclFrameType::Global,
                manufacturer_specific: false,
                direction: ZclDirection::ClientToServer,
                disable_default_response: false,
            }),
    {
        ZclFrameControl {
            frame_type: ZclFrameType::Global,
            manufacturer_specific: false,
            direction: ZclDirection::ClientToServer,
            disable_default_response: false,
        }
    }
}

/// The frame header: the frame control, the manufacturer code where the
/// frame is manufacturer-specific, and the sequence number.
#[derive(Clone, Copy, Debug, PartialEq, Eq, Structural)]
pub struct ZclHeader {
    pub frame_control: ZclFrameControl,
    pub manufacturer_code: Option<u16>,
    pub sequence_number: u8,
}

impl ZclHeader {
    /// The header's bytes; the manufacturer code is written where it is given.
    pub open spec fn spec_bytes(self) -> Seq<u8> {
        seq![self.frame_control.spec_to_u8()] + match self.manufacturer_code {
            Some(c) => le_bytes(c as nat, 2),
            None => Seq::empty(),
        } + seq![self.sequence_number]
    }

    /// Reads a header at `off`: the manufacturer code is read where the
    /// frame control says the frame is manufacturer-specific.
    pub open spec fn spec_parse(s: Seq<u8>, off: int) -> Result<(ZclHeader, int), ParseError> {
        match spec_u8_at(s, off) {
            Err(e) => Err(e),
            Ok(b) => match ZclFrameControl::spec_from_u8(b) {
                Err(e) => Err(e),
                Ok(fc) => if fc.manufacturer_specific {
                    match spec_u16_at(s, off + 1) {
                        Err(e) => Err(e),
                        Ok(c) => match spec_u8_at(s, off + 3) {
                            Err(e) => Err(e),
                            Ok(seq) => Ok((ZclHeader { frame_control: fc, manufacturer_code: Some(c), sequence_number: seq }, 4)),
                        },
                    }
                } else {
                    match spec_u8_at(s, off + 1) {
                        Err(e) => Err(e),
                        Ok(seq) => Ok((ZclHeader { frame_control: fc, manufacturer_code: None, sequence_number: seq }, 2)),
                    }
                },
            },
        }
    }

    /// A header whose manufacturer code is given exactly where the frame
    /// control says so.
    pub open spec fn spec_wf(self) -> bool {
        self.frame_control.manufacturer_specific == (self.manufacturer_code is Some)
    }

    pub fn parse(bytes: &[u8], off: usize) -> (r: Result<(ZclHeader, usize), ParseError>)
        ensures
            match r {
                Ok((h, n)) => ZclHeader::spec_parse(bytes@, off as int) == Ok::<(ZclHeader, int), ParseError>((h, n as int)),
                Err(e) => ZclHeader::spec_parse(bytes@, off as int) == Err::<(ZclHeader, int), ParseError>(e),
            },
    {
        let b = match u8_at(bytes, off) {
            Ok(b) => b,
            Err(e) => return Err(e),
        };
        let fc = match ZclFrameControl::from_u8(b) {
            Ok(fc) => fc,
            Err(e) => return Err(e),
        };
        if fc.manufacturer_specific {
            if off > usize::MAX - 3 {
                return Err(ParseError::Incomplete);
            }
            let c = match u16_at(bytes, off + 1) {
                Ok(c) => c,
                Err(e) => return Err(e),
            };
            let seq = match u8_at(bytes, off + 3) {
                Ok(s) => s,
                Err(e) => return Err(e),
            };
            Ok((ZclHeader { frame_control: fc, manufacturer_code: Some(c), sequence_number: seq }, 4))
        } else {
            let seq = match u8_at(bytes, off + 1) {
                Ok(s) => s,
                Err(e) => return Err(e),
            };
            Ok((ZclHeader { frame_control: fc, manufacturer_code: None, sequence_number: seq }, 2))
        }
    }

    /// Appends the header's bytes.
    pub fn serialize(&self, out: &mut std::vec::Vec<u8>)
        ensures
            final(out)@ == old(out)@ + self.spec_bytes(),
    {
        let ghost start = out@;
        out.push(self.frame_control.to_u8());
        match self.manufacturer_code {
            Some(c) => write_le(out, c as u64, 2),
            None => {},
        }
        out.push(self.sequence_number);
        proof {
            assert(out@ =~= start + self.spec_bytes());
        }
    }

    /// A well-formed header reads back as itself.
    pub proof fn lemma_roundtrip(self, post: Seq<u8>)
        requires
            self.spec_wf(),
        ensures
            ZclHeader::spec_parse(self.spec_bytes() + post, 0) == Ok::<(ZclHeader, int), ParseError>((self, self.spec_bytes().len() as int)),
    {
        let s = self.spec_bytes() + post;
        self.frame_control.lemma_roundtrip();
        crate::bytes::lemma_pow256_values();
        match self.manufacturer_code {
            Some(c) => {
                crate::bytes::lemma_le_roundtrip(c as nat, 2);
                assert(s.subrange(1, 3) =~= le_bytes(c as nat, 2));
                assert(s[3] == self.sequence_number);
            },
            None => {
                assert(s[1] == self.sequence_number);
            },
        }
    }
}

/// A command of a cluster of its own: its identifier and its bytes.
pub struct SpecificZclCommand {
    pub identifier: u8,
    pub data: std::vec::Vec<u8>,
}

/// The command a frame carries.
pub enum ZclFrameCommand {
    Global(GlobalZclCommand),
    Specific(SpecificZclCommand),
}

/// A cluster library frame.
pub struct ZclFrame {
    pub header: ZclHeader,
    pub command: ZclFrameCommand,
}

impl ZclFrame {
    /// A frame for a command of every cluster.
    pub fn new_global_command(
        cmd: GlobalZclCommand,
        sequence_number: u8,
        direction: ZclDirection,
        disable_default_response: bool,
    ) -> (r: ZclFrame)
        ensures
            r.header == (ZclHeader {
                frame_control: ZclFrameControl {
                    frame_type: ZclFrameType::Global,
                    manufacturer_specific: false,
                    direction,
                    disable_default_response,
                },
                manufacturer_code: None,
                sequence_number,
            }),
            r.command == ZclFrameCommand::Global(cmd),
    {
        ZclFrame {
            header: ZclHeader {
                frame_control: ZclFrameControl {
                    frame_type: ZclFrameType::Global,
                    manufacturer_specific: false,
                    direction,
                    disable_default_response,
                },
                manufacturer_code: None,
                sequence_number,
            },
            command: ZclFrameCommand::Global(cmd),
        }
    }

    /// A manufacturer-specific frame for a command of a cluster of its own;
    /// its sequence number is 0.
    pub fn new_specific_command(
        cmd: SpecificZclCommand,
        manufacturer_code: u16,
        direction: ZclDirection,
        disable_default_response: bool,
    ) -> (r: ZclFrame)
        ensures
            r.header == (ZclHeader {
                frame_control: ZclFrameControl {
                    frame_type: ZclFrameType::Specific,
                    manufacturer_specific: true,
                    direction,
                    disable_default_response,
                },
                manufacturer_code: Some(manufacturer_code),
                sequence_number: 0,
            }),
            r.command == ZclFrameCommand::Specific(cmd),
    {
        ZclFrame {
            header: ZclHeader {
                frame_control: ZclFrameControl {
                    frame_type: ZclFrameType::Specific,
                    manufacturer_specific: true,
                    direction,
                    disable_default_response,
                },
                manufacturer_code: Some(manufacturer_code),
                sequence_number: 0,
            },
            command: ZclFrameCommand::Specific(cmd),
        }
    }
}

/// What a frame's command holds: a command of every cluster, or the
/// identifier and bytes of a command of its cluster.
pub ghost enum ZclFrameCommandView {
    Global(GlobalCommandView),
    Specific(u8, Seq<u8>),
}

/// What a frame holds.
pub ghost struct ZclFrameView {
    pub header: ZclHeader,
    pub command: ZclFrameCommandView,
}

impl ZclFrame {
    pub open spec fn spec_view(&self) -> ZclFrameView {
        ZclFrameView {
            header: self.header,
            command: match &self.command {
                ZclFrameCommand::Global(c) => ZclFrameCommandView::Global(c.spec_view()),
                ZclFrameCommand::Specific(c) => ZclFrameCommandView::Specific(c.identifier, c.data@),
            },
        }
    }

    /// Reads a frame: the header, then the command identifier, then for a
    /// command of every cluster its fields (see [`spec_parse_global`]), for
    /// a command of the frame's cluster all the bytes that are left.
    pub open spec fn spec_parse(s: Seq<u8>) -> Result<(ZclFrameView, int), ParseError> {
        match ZclHeader::spec_parse(s, 0) {
            Err(e) => Err(e),
            Ok((header, n)) => match spec_u8_at(s, n) {
                Err(e) => Err(e),
                Ok(id) => match header.frame_control.frame_type {
                    ZclFrameType::Global => match spec_parse_global(s, n + 1, id) {
                        Err(e) => Err(e),
                        Ok((c, m)) => Ok((ZclFrameView { header, command: ZclFrameCommandView::Global(c) }, n + 1 + m)),
                    },
                    ZclFrameType::Specific => Ok(
                        (
                            ZclFrameView { header, command: ZclFrameCommandView::Specific(id, s.subrange(n + 1, s.len() as int)) },
                            s.len() as int,
                        ),
                    ),
                },
            },
        }
    }

    /// The frame's bytes: the header, then for a command of every cluster
    /// its identifier and fields, for a command of the frame's cluster its
    /// bytes alone (its identifier is not written).
    pub open spec fn spec_bytes(&self) -> Option<Seq<u8>> {
        match &self.command {
            ZclFrameCommand::Global(c) => match c.spec_bytes() {
                Some(b) => Some(self.header.spec_bytes() + b),
                None => None,
            },
            ZclFrameCommand::Specific(c) => Some(self.header.spec_bytes() + c.data@),
        }
    }

    /// Reads a frame (see [`ZclFrame::spec_parse`]) and how many bytes it
    /// takes.
    pub fn parse(bytes: &[u8]) -> (r: Result<(ZclFrame, usize), ParseError>)
        ensures
            match r {
                Ok((f, n)) => ZclFrame::spec_parse(bytes@) == Ok::<(ZclFrameView, int), ParseError>((f.spec_view(), n as int)),
                Err(e) => ZclFrame::spec_parse(bytes@) == Err::<(ZclFrameView, int), ParseError>(e),
            },
    {
        let (header, n) = match ZclHeader::parse(bytes, 0) {
            Ok(v) => v,
            Err(e) => return Err(e),
        };
        let id = match u8_at(bytes, n) {
            Ok(v) => v,
            Err(e) => return Err(e),
        };
        match header.frame_control.frame_type {
            ZclFrameType::Global => match GlobalZclCommand::parse(bytes, n + 1, id) {
                Ok((c, m)) => {
                    Ok((ZclFrame { header, command: ZclFrameCommand::Global(c) }, n + 1 + m))
                },
                Err(e) => Err(e),
            },
            ZclFrameType::Specific => {
                let blen = bytes.len();
                let data = copy_range(bytes, n + 1, blen);
                Ok((ZclFrame { header, command: ZclFrameCommand::Specific(SpecificZclCommand { identifier: id, data }) }, blen))
            },
        }
    }

    /// Appends the frame's bytes (see [`ZclFrame::spec_bytes`]); a value
    /// that cannot be written is refused.
    pub fn serialize(&self, out: &mut std::vec::Vec<u8>) -> (r: Result<(), ParseError>)
        ensures
            r is Ok <==> self.spec_bytes() is Some,
            r is Ok ==> final(out)@ == old(out)@ + self.spec_bytes()->Some_0,
    {
        let ghost start = out@;
        self.header.serialize(out);
        match &self.command {
            ZclFrameCommand::Global(c) => {
                let w = c.serialize(out);
                proof {
                    if w is Ok {
                        assert(out@ =~= start + self.spec_bytes()->Some_0);
                    }
                }
                w
            },
            ZclFrameCommand::Specific(c) => {
                write_slice(out, c.data.as_slice());
                proof {
                    assert(out@ =~= start + self.spec_bytes()->Some_0);
                }
                Ok(())
            },
        }
    }
}

/// The frame control byte: the frame type in bit 0 (set for a command of
/// the frame's cluster), bit 1 clear, manufacturer-specific in bit 2, the
/// direction in bit 3 (set from server to client), default response
/// disabled in bit 4, and nothing above.
pub proof fn lemma_frame_control_bits(fc: ZclFrameControl)
    ensures
        fc.spec_to_u8() % 2 == (if fc.frame_type == ZclFrameType::Specific { 1int } else { 0int }),
        (fc.spec_to_u8() / 2) % 2 == 0,
        (fc.spec_to_u8() / 4) % 2 == (if fc.manufacturer_specific { 1int } else { 0int }),
        (fc.spec_to_u8() / 8) % 2 == (if fc.direction == ZclDirection::ServerToClient { 1int } else { 0int }),
        (fc.spec_to_u8() / 16) % 2 == (if fc.disable_default_response { 1int } else { 0int }),
        fc.spec_to_u8() < 32,
{
}

/// The header of a cluster library frame: the frame control byte, the
/// manufacturer code where given, low byte first, then the sequence number.
pub proof fn lemma_header_layout(h: ZclHeader)
    ensures
        h.manufacturer_code matches Some(c) ==> h.spec_bytes() == seq![
            h.frame_control.spec_to_u8(),
            (c % 256) as u8,
            (c / 256) as u8,
            h.sequence_number,
        ],
        h.manufacturer_code is None ==> h.spec_bytes() == seq![h.frame_control.spec_to_u8(), h.sequence_number],
{
    reveal_with_fuel(crate::bytes::le_bytes, 3);
    match h.manufacturer_code {
        Some(c) => {
            assert(h.spec_bytes() =~= seq![
                h.frame_control.spec_to_u8(),
                (c % 256) as u8,
                (c / 256) as u8,
                h.sequence_number,
            ]);
        },
        None => {
            assert(h.spec_bytes() =~= seq![h.frame_control.spec_to_u8(), h.sequence_number]);
        },
    }
}

} // verus!

