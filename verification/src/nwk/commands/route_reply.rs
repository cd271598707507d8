//! The options of a route reply command.
use vstd::prelude::*;

use crate::nwk::commands::{bflag, bit_at};

verus! {

/// Route reply options: the originator IEEE flag in bit 3, the responder
/// IEEE flag in bit 4 and the multicast flag in bit 5.
#[derive(Clone, Copy, Debug, PartialEq, Eq, Structural)]
pub struct CommandOptions {
    pub originator_ieee: bool,
    pub responder_ieee: bool,
    pub multicast: bool,
}

impl CommandOptions {
    pub open spec fn spec_to_u8(self) -> u8 {
        (bflag(self.originator_ieee, 8) + bflag(self.responder_ieee, 16) + bflag(self.multicast, 32)) as u8
    }

    pub open spec fn spec_from_u8(v: u8) -> CommandOptions {
        CommandOptions {
            originator_ieee: bit_at(v, 8),
            responder_ieee: bit_at(v, 16),
            multicast: bit_at(v, 32),
        }
    }

    pub fn to_u8(&self) -> (r: u8)
        ensures
            r == self.spec_to_u8(),
    {
        let a: u8 = if self.originator_ieee {
            8
        } else {
            0
        };
        let b: u8 = if self.responder_ieee {
            16
        } else {
            0
        };
        let c: u8 = if self.multicast {
            32
        } else {
            0
        };
        a + b + c
    }

    pub fn from_u8(v: u8) -> (r: CommandOptions)
        ensures
            r == CommandOptions::spec_from_u8(v),
    {
        CommandOptions {
            originator_ieee: (v / 8) % 2 == 1,
            responder_ieee: (v / 16) % 2 == 1,
            multicast: (v / 32) % 2 == 1,
        }
    }
}

/// The options byte of a route reply: bits 0 to 2 clear, originator IEEE
/// in bit 3, responder IEEE in bit 4, multicast in bit 5, bits 6 and 7
/// clear.
pub proof fn lemma_route_reply_options_bits(o: CommandOptions)
    ensures
        o.spec_to_u8() % 8 == 0,
        (o.spec_to_u8() / 8) % 2 == (if o.originator_ieee { 1int } else { 0int }),
        (o.spec_to_u8() / 16) % 2 == (if o.responder_ieee { 1int } else { 0int }),
        (o.spec_to_u8() / 32) % 2 == (if o.multicast { 1int } else { 0int }),
        o.spec_to_u8() < 64,
{
}

} // verus!
