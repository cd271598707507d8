//! The identify cluster (0x0003): how long a device keeps identifying
//! itself, counted down ten times a second, and the commands that start,
//! query and stop it.
use vstd::prelude::*;

use crate::bytes::{spec_u16_at, u16_at, u16_le, write_u16, ParseError};
use crate::zcl::cluster::{Attribute, AttributeAccess, AttributeView, ClusterType, ZclAttribute, ZclCluster};
use crate::zcl::frame::{SpecificZclCommand, ZclFrameCommand};
use crate::zcl::types::{ZclData, ZclDataView, ZclStatus};

verus! {

/// The time left to identify (attribute 0x0000; read and write).
pub struct IdentifyTime {
    pub value: u16,
}

impl IdentifyTime {
    pub fn new(value: u16) -> (r: Self)
        ensures
            r.value == value,
    {
        IdentifyTime { value }
    }

    pub open spec fn spec_attribute(&self) -> AttributeView {
        AttributeView {
            identifier: 0x0000,
            access: AttributeAccess { read: true, write: true, report: false, scene: false },
            value: ZclDataView::UInt16(self.value),
            range: None,
            reporting: None,
        }
    }

    /// The attribute as the cluster library holds it.
    pub fn attribute(&self) -> (r: ZclAttribute)
        ensures
            r.spec_view() == self.spec_attribute(),
    {
        ZclAttribute::new(0x0000, AttributeAccess::read_write(), None, ZclData::UInt16(self.value))
    }
}

impl Attribute<u16> for IdentifyTime {
    fn get_value(&self) -> (r: u16)
        ensures
            r == self.value,
    {
        self.value
    }

    /// Takes any time: the attribute has no range.
    fn set_value(&mut self, value: u16) -> (r: Result<(), ZclStatus>)
        ensures
            r is Ok,
            final(self).value == value,
    {
        self.value = value;
        Ok(())
    }

    fn validate_value(&self, value: &u16) -> (r: Result<(), ZclStatus>)
        ensures
            r is Ok,
    {
        Ok(())
    }
}

/// The effect a trigger-effect command asks for, one byte on the air:
/// 0x00 blink, 0x01 breathe, 0x02 okay, 0x0b channel change, 0xfe finish,
/// 0xff stop.
#[derive(Clone, Copy, Debug, PartialEq, Eq, Structural)]
pub enum EffectIdentifier {
    Blink,
    Breathe,
    Okay,
    ChannelChange,
    Finish,
    Stop,
}

/// The variant of the effect, one byte on the air: only 0x00.
#[derive(Clone, Copy, Debug, PartialEq, Eq, Structural)]
pub enum EffectVariant {
    Default,
}

impl EffectIdentifier {
    pub open spec fn spec_to_u8(self) -> u8 {
        match self {
            EffectIdentifier::Blink => 0x00,
            EffectIdentifier::Breathe => 0x01,
            EffectIdentifier::Okay => 0x02,
            EffectIdentifier::ChannelChange => 0x0b,
            EffectIdentifier::Finish => 0xfe,
            EffectIdentifier::Stop => 0xff,
        }
    }

    pub open spec fn spec_from_u8(v: u8) -> Option<EffectIdentifier> {
        if v == 0x00 {
            Some(EffectIdentifier::Blink)
        } else if v == 0x01 {
            Some(EffectIdentifier::Breathe)
        } else if v == 0x02 {
            Some(EffectIdentifier::Okay)
        } else if v == 0x0b {
            Some(EffectIdentifier::ChannelChange)
        } else if v == 0xfe {
            Some(EffectIdentifier::Finish)
        } else if v == 0xff {
            Some(EffectIdentifier::Stop)
        } else {
            None
        }
    }

    pub fn to_u8(&self) -> (r: u8)
        ensures
            r == self.spec_to_u8(),
    {
        match self {
            EffectIdentifier::Blink => 0x00,
            EffectIdentifier::Breathe => 0x01,
            EffectIdentifier::Okay => 0x02,
            EffectIdentifier::ChannelChange => 0x0b,
            EffectIdentifier::Finish => 0xfe,
            EffectIdentifier::Stop => 0xff,
        }
    }

    /// Reads the effect from the first byte; an unknown byte is refused.
    pub fn try_read(bytes: &[u8]) -> (r: Result<(EffectIdentifier, usize), ParseError>)
        ensures
            bytes@.len() < 1 ==> r == Err::<(EffectIdentifier, usize), ParseError>(ParseError::Incomplete),
            bytes@.len() >= 1 ==> r == match EffectIdentifier::spec_from_u8(bytes@[0]) {
                Some(e) => Ok((e, 1usize)),
                None => Err(ParseError::BadInput),
            },
    {
        if bytes.len() < 1 {
            return Err(ParseError::Incomplete);
        }
        let v = bytes[0];
        if v == 0x00 {
            Ok((EffectIdentifier::Blink, 1))
        } else if v == 0x01 {
            Ok((EffectIdentifier::Breathe, 1))
        } else if v == 0x02 {
            Ok((EffectIdentifier::Okay, 1))
        } else if v == 0x0b {
            Ok((EffectIdentifier::ChannelChange, 1))
        } else if v == 0xfe {
            Ok((EffectIdentifier::Finish, 1))
        } else if v == 0xff {
            Ok((EffectIdentifier::Stop, 1))
        } else {
            Err(ParseError::BadInput)
        }
    }
}

impl EffectVariant {
    pub fn to_u8(&self) -> (r: u8)
        ensures
            r == 0,
    {
        0
    }

    /// Reads the variant from the first byte; any byte but 0 is refused.
    pub fn try_read(bytes: &[u8]) -> (r: Result<(EffectVariant, usize), ParseError>)
        ensures
            bytes@.len() < 1 ==> r == Err::<(EffectVariant, usize), ParseError>(ParseError::Incomplete),
            bytes@.len() >= 1 && bytes@[0] == 0 ==> r == Ok::<(EffectVariant, usize), ParseError>((EffectVariant::Default, 1)),
            bytes@.len() >= 1 && bytes@[0] != 0 ==> r == Err::<(EffectVariant, usize), ParseError>(ParseError::BadInput),
    {
        if bytes.len() < 1 {
            return Err(ParseError::Incomplete);
        }
        if bytes[0] == 0 {
            Ok((EffectVariant::Default, 1))
        } else {
            Err(ParseError::BadInput)
        }
    }
}

/// Each effect's byte names it again.
pub proof fn lemma_effect_identifier_roundtrip(e: EffectIdentifier)
    ensures
        EffectIdentifier::spec_from_u8(e.spec_to_u8()) == Some(e),
{
}

/// A command of the cluster, named by its identifier: 0x00 identify for
/// the given time, 0x01 identify query, 0x40 trigger effect.
#[derive(Clone, Copy, Debug, PartialEq, Eq, Structural)]
pub enum IdentifyZclCommand {
    Identify(u16),
    IdentifyQuery,
    TriggerEffect(EffectIdentifier, EffectVariant),
}

impl IdentifyZclCommand {
    /// The command `cmd_id` names, read from `s`, and how many bytes it took.
    pub open spec fn spec_parse(s: Seq<u8>, cmd_id: u8) -> Result<(IdentifyZclCommand, usize), ParseError> {
        if cmd_id == 0x00 {
            match spec_u16_at(s, 0) {
                Ok(t) => Ok((IdentifyZclCommand::Identify(t), 2)),
                Err(e) => Err(e),
            }
        } else if cmd_id == 0x01 {
            Ok((IdentifyZclCommand::IdentifyQuery, 0))
        } else if cmd_id == 0x40 {
            if s.len() < 1 {
                Err(ParseError::Incomplete)
            } else {
                match EffectIdentifier::spec_from_u8(s[0]) {
                    None => Err(ParseError::BadInput),
                    Some(e) => if s.len() < 2 {
                        Err(ParseError::Incomplete)
                    } else if s[1] != 0 {
                        Err(ParseError::BadInput)
                    } else {
                        Ok((IdentifyZclCommand::TriggerEffect(e, EffectVariant::Default), 2))
                    },
                }
            }
        } else {
            Err(ParseError::BadInput)
        }
    }

    pub fn try_read(bytes: &[u8], cmd_id: u8) -> (r: Result<(IdentifyZclCommand, usize), ParseError>)
        ensures
            r == IdentifyZclCommand::spec_parse(bytes@, cmd_id),
    {
        if cmd_id == 0x00 {
            match u16_at(bytes, 0) {
                Ok(t) => Ok((IdentifyZclCommand::Identify(t), 2)),
                Err(e) => Err(e),
            }
        } else if cmd_id == 0x01 {
            Ok((IdentifyZclCommand::IdentifyQuery, 0))
        } else if cmd_id == 0x40 {
            let effect = match EffectIdentifier::try_read(bytes) {
                Ok((e, _)) => e,
                Err(e) => return Err(e),
            };
            if bytes.len() < 1 {
                return Err(ParseError::Incomplete);
            }
            let rest = crate::bytes::copy_range(bytes, 1, bytes.len());
            let variant = match EffectVariant::try_read(rest.as_slice()) {
                Ok((v, _)) => v,
                Err(e) => return Err(e),
            };
            Ok((IdentifyZclCommand::TriggerEffect(effect, variant), 2))
        } else {
            Err(ParseError::BadInput)
        }
    }
}

/// A call made on the device's identify handler.
pub ghost enum IdentifyCall {
    Start(u16),
    Stop,
    Effect(EffectIdentifier, EffectVariant),
}

/// What the device does when asked to identify itself.
pub trait IdentifyClusterHandler {
    /// The calls made on the handler so far, in order. A handler that is
    /// verified records its calls here; the default records none, which no
    /// handler that is called can keep to.
    closed spec fn identify_calls(&self) -> Seq<IdentifyCall> {
        Seq::empty()
    }

    /// Starts identifying for `seconds`.
    fn identify_start(&mut self, seconds: u16)
        ensures
            final(self).identify_calls() == old(self).identify_calls().push(IdentifyCall::Start(seconds)),
    ;

    /// Stops identifying.
    fn identify_stop(&mut self)
        ensures
            final(self).identify_calls() == old(self).identify_calls().push(IdentifyCall::Stop),
    ;

    /// Shows the effect `identifier` in its variant `variant`.
    fn identify_effect(&mut self, identifier: EffectIdentifier, variant: EffectVariant)
        ensures
            final(self).identify_calls() == old(self).identify_calls().push(IdentifyCall::Effect(identifier, variant)),
    ;
}

/// The identify cluster of a device that `handler` makes identify itself.
pub struct IdentifyCluster<H: IdentifyClusterHandler> {
    pub identify_time: IdentifyTime,
    pub handler: H,
}

impl<H: IdentifyClusterHandler> IdentifyCluster<H> {
    /// A cluster that is not identifying.
    pub fn new(handler: H) -> (r: Self)
        ensures
            r.identify_time.value == 0,
            r.handler == handler,
    {
        IdentifyCluster { identify_time: IdentifyTime::new(0), handler }
    }

    /// The cluster's attributes as the cluster library holds them.
    pub fn zcl_cluster(&self) -> (r: ZclCluster)
        ensures
            r.identifier == 0x0003,
            r.cluster_type == ClusterType::Server,
            r.spec_attrs() == map![0x0000u16 => self.identify_time.spec_attribute()],
    {
        let mut c = ZclCluster::new(0x0003, ClusterType::Server);
        let _ = c.add_attribute(self.identify_time.attribute());
        proof {
            assert(c.spec_attrs() =~= map![0x0000u16 => self.identify_time.spec_attribute()]);
        }
        c
    }
}

/// Runs a command of the cluster. Identify sets the time left, and starts
/// the handler for that time or stops it when the time is 0. A query is
/// answered by a command 0x00 with the time left, little-endian, while
/// that time is not 0, and not answered otherwise. A trigger effect goes
/// to the handler. A command that cannot be read changes nothing and is
/// not answered.
pub fn identify_custom_command_handler<H: IdentifyClusterHandler>(
    this: &mut IdentifyCluster<H>,
    cmd: &SpecificZclCommand,
) -> (r: Option<ZclFrameCommand>)
    ensures
        match IdentifyZclCommand::spec_parse(cmd.data@, cmd.identifier) {
            Ok((IdentifyZclCommand::Identify(t), _)) => r is None && final(this).identify_time.value == t
                && final(this).handler.identify_calls() == old(this).handler.identify_calls().push(
                if t == 0 {
                    IdentifyCall::Stop
                } else {
                    IdentifyCall::Start(t)
                },
            ),
            Ok((IdentifyZclCommand::TriggerEffect(e, v), _)) => r is None && final(this).identify_time.value
                == old(this).identify_time.value && final(this).handler.identify_calls()
                == old(this).handler.identify_calls().push(IdentifyCall::Effect(e, v)),
            Ok((IdentifyZclCommand::IdentifyQuery, _)) => final(this).identify_time.value
                == old(this).identify_time.value && if old(this).identify_time.value > 0 {
                r matches Some(ZclFrameCommand::Specific(c)) && c.identifier == 0x00 && c.data@ == u16_le(
                    old(this).identify_time.value,
                )
            } else {
                r is None
            } && final(this).handler.identify_calls() == old(this).handler.identify_calls(),
            Err(_) => r is None && final(this).identify_time.value == old(this).identify_time.value
                && final(this).handler.identify_calls() == old(this).handler.identify_calls(),
        },
{
    let parsed = IdentifyZclCommand::try_read(cmd.data.as_slice(), cmd.identifier);
    let c = match parsed {
        Ok((c, _)) => c,
        Err(_) => return None,
    };
    match c {
        IdentifyZclCommand::Identify(time) => {
            if let Ok(_) = this.identify_time.set_value(time) {
                if time == 0 {
                    this.handler.identify_stop();
                } else {
                    this.handler.identify_start(time);
                }
            }
            None
        },
        IdentifyZclCommand::IdentifyQuery => {
            if this.identify_time.get_value() > 0 {
                let mut data: std::vec::Vec<u8> = std::vec::Vec::new();
                write_u16(&mut data, this.identify_time.get_value());
                proof {
                    assert(data@ =~= u16_le(this.identify_time.value));
                }
                Some(ZclFrameCommand::Specific(SpecificZclCommand { identifier: 0x00, data }))
            } else {
                None
            }
        },
        IdentifyZclCommand::TriggerEffect(effect, variant) => {
            this.handler.identify_effect(effect, variant);
            None
        },
    }
}

/// One tick: the time left counts down to 0; the handler is not called.
pub fn identify_update_handler<H: IdentifyClusterHandler>(this: &mut IdentifyCluster<H>)
    ensures
        final(this).handler.identify_calls() == old(this).handler.identify_calls(),
        final(this).identify_time.value == if old(this).identify_time.value > 0 {
            (old(this).identify_time.value - 1) as u16
        } else {
            0
        },
{
    if this.identify_time.value > 0 {
        this.identify_time.value = this.identify_time.value - 1;
    }
}

/// Each identify effect is written with its cluster library identifier.
pub proof fn lemma_effect_identifiers(x: EffectIdentifier)
    ensures
        x is Blink ==> x.spec_to_u8() == 0x00u8,
        x is Breathe ==> x.spec_to_u8() == 0x01u8,
        x is Okay ==> x.spec_to_u8() == 0x02u8,
        x is ChannelChange ==> x.spec_to_u8() == 0x0bu8,
        x is Finish ==> x.spec_to_u8() == 0xfeu8,
        x is Stop ==> x.spec_to_u8() == 0xffu8,
{
}

/// The commands of the cluster by identifier: 0x00 Identify with its time,
/// low byte first; 0x01 Identify query; 0x40 Trigger effect with the effect
/// and a variant byte of 0; no other identifier is a command.
pub proof fn lemma_command_identifiers(s: Seq<u8>, id: u8)
    ensures
        (id == 0x00 && s.len() >= 2) ==> IdentifyZclCommand::spec_parse(s, id) == Ok::<(IdentifyZclCommand, usize), ParseError>(
            (IdentifyZclCommand::Identify((s[0] as int + 256 * s[1] as int) as u16), 2),
        ),
        id == 0x01 ==> IdentifyZclCommand::spec_parse(s, id) == Ok::<(IdentifyZclCommand, usize), ParseError>(
            (IdentifyZclCommand::IdentifyQuery, 0),
        ),
        id == 0x40 ==> (IdentifyZclCommand::spec_parse(s, id) matches Ok((c, _)) ==> c is TriggerEffect),
        !(id == 0x00 || id == 0x01 || id == 0x40) ==> IdentifyZclCommand::spec_parse(s, id) is Err,
{
    if id == 0x00 && s.len() >= 2 {
        crate::bytes::lemma_u16_at_value(s, 0);
    }
}

} // verus!
