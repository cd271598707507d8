//! The options of a link status command.
use vstd::prelude::*;

use crate::nwk::commands::{bflag, bit_at};

verus! {

/// Link status options: the entry count in bits 0-4, then the first-frame
/// and last-frame flags.
#[derive(Debug, Clone, Copy, PartialEq, Eq, Structural)]
pub struct CommandOptions {
    pub entry_count: u8,
    pub first_frame: bool,
    pub last_frame: bool,
}

impl CommandOptions {
    pub open spec fn spec_to_u8(self) -> u8 {
        (self.entry_count % 32 + bflag(self.first_frame, 32) + bflag(self.last_frame, 64)) as u8
    }

    pub open spec fn spec_from_u8(v: u8) -> CommandOptions {
        CommandOptions { entry_count: v % 32, first_frame: bit_at(v, 32), last_frame: bit_at(v, 64) }
    }

    pub fn to_u8(&self) -> (r: u8)
        ensures
            r == self.spec_to_u8(),
    {
        let a: u8 = if self.first_frame {
            32
        } else {
            0
        };
        let b: u8 = if self.last_frame {
            64
        } else {
            0
        };
        self.entry_count % 32 + a + b
    }

    pub fn from_u8(v: u8) -> (r: CommandOptions)
        ensures
            r == CommandOptions::spec_from_u8(v),
    {
        CommandOptions {
            entry_count: v % 32,
            first_frame: (v / 32) % 2 == 1,
            last_frame: (v / 64) % 2 == 1,
        }
    }
}

/// The options byte of a link status command: the entry count in bits 0 to
/// 4, first frame in bit 5, last frame in bit 6, bit 7 clear.
pub proof fn lemma_link_status_options_bits(o: CommandOptions)
    ensures
        o.spec_to_u8() % 32 == o.entry_count % 32,
        (o.spec_to_u8() / 32) % 2 == (if o.first_frame { 1int } else { 0int }),
        (o.spec_to_u8() / 64) % 2 == (if o.last_frame { 1int } else { 0int }),
        o.spec_to_u8() < 128,
{
}

} // verus!
