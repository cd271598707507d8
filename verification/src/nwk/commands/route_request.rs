//! The options of a route request command.
use vstd::prelude::*;

use crate::bytes::ParseError;
use crate::nwk::commands::{bflag, bit_at, ManyToOne};

verus! {

/// Route request options: many-to-one in bits 3-4, then the destination
/// IEEE and the multicast flags.
#[derive(Clone, Copy, Debug, PartialEq, Eq, Structural)]
pub struct CommandOptions {
    pub many_to_one: ManyToOne,
    pub destination_ieee: bool,
    pub multicast: bool,
}

impl CommandOptions {
    pub open spec fn spec_to_u8(self) -> u8 {
        (8 * self.many_to_one.spec_code() + bflag(self.destination_ieee, 32) + bflag(
            self.multicast,
            64,
        )) as u8
    }

    pub open spec fn spec_from_u8(v: u8) -> Result<CommandOptions, ParseError> {
        let m = (v / 8) % 4;
        if m == 3 {
            Err(ParseError::BadInput)
        } else {
            Ok(
                CommandOptions {
                    many_to_one: if m == 0 {
                        ManyToOne::NotManyToOne
                    } else if m == 1 {
                        ManyToOne::ManyToOneRouteRecordSupported
                    } else {
                        ManyToOne::ManyToOneRouteRecordNotSupported
                    },
                    destination_ieee: bit_at(v, 32),
                    multicast: bit_at(v, 64),
                },
            )
        }
    }

    pub fn to_u8(&self) -> (r: u8)
        ensures
            r == self.spec_to_u8(),
    {
        let m: u8 = match self.many_to_one {
            ManyToOne::NotManyToOne => 0,
            ManyToOne::ManyToOneRouteRecordSupported => 1,
            ManyToOne::ManyToOneRouteRecordNotSupported => 2,
        };
        let d: u8 = if self.destination_ieee {
            32
        } else {
            0
        };
        let c: u8 = if self.multicast {
            64
        } else {
            0
        };
        8 * m + d + c
    }

    pub fn from_u8(v: u8) -> (r: Result<CommandOptions, ParseError>)
        ensures
            r == CommandOptions::spec_from_u8(v),
    {
        let m = (v / 8) % 4;
        if m == 3 {
            return Err(ParseError::BadInput);
        }
        Ok(
            CommandOptions {
                many_to_one: if m == 0 {
                    ManyToOne::NotManyToOne
                } else if m == 1 {
                    ManyToOne::ManyToOneRouteRecordSupported
                } else {
                    ManyToOne::ManyToOneRouteRecordNotSupported
                },
                destination_ieee: (v / 32) % 2 == 1,
                multicast: (v / 64) % 2 == 1,
            },
        )
    }
}

/// The options byte of a route request: bits 0 to 2 clear, the
/// many-to-one mode in bits 3 and 4, destination IEEE in bit 5, multicast
/// in bit 6, bit 7 clear.
pub proof fn lemma_route_request_options_bits(o: CommandOptions)
    ensures
        o.spec_to_u8() % 8 == 0,
        (o.spec_to_u8() / 8) % 4 == o.many_to_one.spec_code(),
        (o.spec_to_u8() / 32) % 2 == (if o.destination_ieee { 1int } else { 0int }),
        (o.spec_to_u8() / 64) % 2 == (if o.multicast { 1int } else { 0int }),
        o.spec_to_u8() < 128,
{
    crate::nwk::commands::lemma_many_to_one_codes(o.many_to_one);
}

} // verus!
