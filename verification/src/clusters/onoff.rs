//! The on/off cluster (0x0006): a switch, its timed-on and off-wait timers
//! (in tenths of a second) and the commands that drive them.
use vstd::prelude::*;

use crate::bytes::{spec_u16_at, u16_at, u16_le, write_u16, ParseError};
use crate::zcl::cluster::{
    AttributeAccess, AttributeView, ClusterType, ReportedAttributeIntervalsConfig, ReportingView, ZclAttribute,
    ZclCluster,
};
use crate::zcl::frame::{SpecificZclCommand, ZclFrameCommand};
use crate::zcl::types::{ZclData, ZclDataView};

verus! {

/// What the device does when the cluster switches it.
pub trait OnOffClusterHandler: Sized {
    /// How many times the device was switched on. A handler that is
    /// verified counts its calls here; the default counts none, which no
    /// handler that switches can keep to.
    closed spec fn turn_on_count(&self) -> nat {
        0
    }

    /// How many times the device was switched off (see
    /// [`OnOffClusterHandler::turn_on_count`]).
    closed spec fn turn_off_count(&self) -> nat {
        0
    }

    /// Switches the device on.
    fn turn_on(&mut self)
        ensures
            final(self).turn_on_count() == old(self).turn_on_count() + 1,
            final(self).turn_off_count() == old(self).turn_off_count(),
    ;

    /// Switches the device off.
    fn turn_off(&mut self)
        ensures
            final(self).turn_off_count() == old(self).turn_off_count() + 1,
            final(self).turn_on_count() == old(self).turn_on_count(),
    ;
}

/// Whether the device is on (attribute 0x0000; read and reported, at most
/// every 0xffff seconds).
pub struct OnOff {
    pub value: bool,
}

/// Whether the global scene is to be recalled (attribute 0x4000; read only).
pub struct GlobalSceneControl {
    pub value: bool,
}

/// How long the device stays on (attribute 0x4001; read and write).
pub struct OnTime {
    pub value: u16,
}

/// How long an off device ignores a timed on (attribute 0x4002; read and
/// write).
pub struct OffWaitTime {
    pub value: u16,
}

impl OnOff {
    pub fn new(value: bool) -> (r: Self)
        ensures
            r.value == value,
    {
        OnOff { value }
    }

    pub open spec fn spec_attribute(&self) -> AttributeView {
        AttributeView {
            identifier: 0x0000,
            access: AttributeAccess { read: true, write: false, report: true, scene: false },
            value: ZclDataView::Bool(self.value),
            range: None,
            reporting: Some(
                ReportingView { default: (0x0, 0xffff), current: (0x0, 0xffff), reportable_change: None, last_reported_on: None },
            ),
        }
    }

    /// The attribute as the cluster library holds it.
    pub fn attribute(&self) -> (r: ZclAttribute)
        ensures
            r.spec_view() == self.spec_attribute(),
    {
        let mut a = ZclAttribute::new(0x0000, AttributeAccess::read_report(), None, ZclData::Bool(self.value));
        a.reporting = Some(ReportedAttributeIntervalsConfig::new((0x0, 0xffff), None));
        a
    }
}

impl GlobalSceneControl {
    pub fn new(value: bool) -> (r: Self)
        ensures
            r.value == value,
    {
        GlobalSceneControl { value }
    }

    pub open spec fn spec_attribute(&self) -> AttributeView {
        AttributeView {
            identifier: 0x4000,
            access: AttributeAccess { read: true, write: false, report: false, scene: false },
            value: ZclDataView::Bool(self.value),
            range: None,
            reporting: None,
        }
    }

    /// The attribute as the cluster library holds it.
    pub fn attribute(&self) -> (r: ZclAttribute)
        ensures
            r.spec_view() == self.spec_attribute(),
    {
        ZclAttribute::new(0x4000, AttributeAccess::read_only(), None, ZclData::Bool(self.value))
    }
}

impl OnTime {
    pub fn new(value: u16) -> (r: Self)
        ensures
            r.value == value,
    {
        OnTime { value }
    }

    pub open spec fn spec_attribute(&self) -> AttributeView {
        AttributeView {
            identifier: 0x4001,
            access: AttributeAccess { read: true, write: true, report: false, scene: false },
            value: ZclDataView::UInt16(self.value),
            range: None,
            reporting: None,
        }
    }

    /// The attribute as the cluster library holds it.
    pub fn attribute(&self) -> (r: ZclAttribute)
        ensures
            r.spec_view() == self.spec_attribute(),
    {
        ZclAttribute::new(0x4001, AttributeAccess::read_write(), None, ZclData::UInt16(self.value))
    }
}

impl OffWaitTime {
    pub fn new(value: u16) -> (r: Self)
        ensures
            r.value == value,
    {
        OffWaitTime { value }
    }

    pub open spec fn spec_attribute(&self) -> AttributeView {
        AttributeView {
            identifier: 0x4002,
            access: AttributeAccess { read: true, write: true, report: false, scene: false },
            value: ZclDataView::UInt16(self.value),
            range: None,
            reporting: None,
        }
    }

    /// The attribute as the cluster library holds it.
    pub fn attribute(&self) -> (r: ZclAttribute)
        ensures
            r.spec_view() == self.spec_attribute(),
    {
        ZclAttribute::new(0x4002, AttributeAccess::read_write(), None, ZclData::UInt16(self.value))
    }
}

/// The off effect of a delayed all-off.
#[derive(Clone, Copy, Debug, PartialEq, Eq, Structural)]
pub enum DelayedEffects {
    NoFade,
    DimDownThenFade,
}

/// The off effect of a dying light.
#[derive(Clone, Copy, Debug, PartialEq, Eq, Structural)]
pub enum DyingLightEffects {
    DimUpThenFadeOff,
}

/// How an off-with-effect command turns the light off: two bytes, the
/// effect (0 delayed all-off, 1 dying light) and its variant.
#[derive(Clone, Copy, Debug, PartialEq, Eq, Structural)]
pub enum Effect {
    DelayedAllOff(DelayedEffects),
    DyingLight(DyingLightEffects),
}

/// An on-with-timed-off command: five bytes, a flag (any byte but 0 is
/// set), then the on time and the off-wait time, little-endian.
#[derive(Clone, Copy, Debug, PartialEq, Eq, Structural)]
pub struct OnWithTimedOffCmd {
    pub accept_only_when_on: bool,
    pub on_time: u16,
    pub off_wait_time: u16,
}

/// A command of the cluster, named by its identifier: 0x00 off, 0x01 on,
/// 0x02 toggle, 0x40 off with effect, 0x41 on with recall global scene,
/// 0x42 on with timed off.
#[derive(Clone, Copy, Debug, PartialEq, Eq, Structural)]
pub enum OnOffZclCommand {
    Off,
    On,
    Toggle,
    OffWithEffect(Effect),
    OnWithRecallGlobalScene,
    OnWithTimedOff(OnWithTimedOffCmd),
}

impl Effect {
    /// The effect at the start of `s` and its length.
    pub open spec fn spec_parse(s: Seq<u8>) -> Result<(Effect, usize), ParseError> {
        if s.len() < 1 {
            Err(ParseError::Incomplete)
        } else if s[0] == 0 {
            if s.len() < 2 {
                Err(ParseError::Incomplete)
            } else if s[1] == 1 {
                Ok((Effect::DelayedAllOff(DelayedEffects::NoFade), 2))
            } else if s[1] == 2 {
                Ok((Effect::DelayedAllOff(DelayedEffects::DimDownThenFade), 2))
            } else {
                Err(ParseError::BadInput)
            }
        } else if s[0] == 1 {
            if s.len() < 2 {
                Err(ParseError::Incomplete)
            } else if s[1] == 0 {
                Ok((Effect::DyingLight(DyingLightEffects::DimUpThenFadeOff), 2))
            } else {
                Err(ParseError::BadInput)
            }
        } else {
            Err(ParseError::BadInput)
        }
    }

    pub open spec fn spec_bytes(self) -> Seq<u8> {
        match self {
            Effect::DelayedAllOff(DelayedEffects::NoFade) => seq![0u8, 1u8],
            Effect::DelayedAllOff(DelayedEffects::DimDownThenFade) => seq![0u8, 2u8],
            Effect::DyingLight(DyingLightEffects::DimUpThenFadeOff) => seq![1u8, 0u8],
        }
    }

    pub fn try_read(bytes: &[u8]) -> (r: Result<(Effect, usize), ParseError>)
        ensures
            r == Effect::spec_parse(bytes@),
    {
        if bytes.len() < 1 {
            return Err(ParseError::Incomplete);
        }
        let tag = bytes[0];
        if tag == 0 {
            if bytes.len() < 2 {
                Err(ParseError::Incomplete)
            } else if bytes[1] == 1 {
                Ok((Effect::DelayedAllOff(DelayedEffects::NoFade), 2))
            } else if bytes[1] == 2 {
                Ok((Effect::DelayedAllOff(DelayedEffects::DimDownThenFade), 2))
            } else {
                Err(ParseError::BadInput)
            }
        } else if tag == 1 {
            if bytes.len() < 2 {
                Err(ParseError::Incomplete)
            } else if bytes[1] == 0 {
                Ok((Effect::DyingLight(DyingLightEffects::DimUpThenFadeOff), 2))
            } else {
                Err(ParseError::BadInput)
            }
        } else {
            Err(ParseError::BadInput)
        }
    }

    /// Appends the effect's two bytes.
    pub fn try_write(&self, out: &mut std::vec::Vec<u8>)
        ensures
            final(out)@ == old(out)@ + self.spec_bytes(),
    {
        let (a, b): (u8, u8) = match self {
            Effect::DelayedAllOff(DelayedEffects::NoFade) => (0, 1),
            Effect::DelayedAllOff(DelayedEffects::DimDownThenFade) => (0, 2),
            Effect::DyingLight(DyingLightEffects::DimUpThenFadeOff) => (1, 0),
        };
        out.push(a);
        out.push(b);
        proof {
            assert(out@ =~= old(out)@ + self.spec_bytes());
        }
    }
}

impl OnWithTimedOffCmd {
    pub open spec fn spec_parse(s: Seq<u8>) -> Result<(OnWithTimedOffCmd, usize), ParseError> {
        if s.len() < 5 {
            Err(ParseError::Incomplete)
        } else {
            Ok(
                (
                    OnWithTimedOffCmd {
                        accept_only_when_on: s[0] != 0,
                        on_time: spec_u16_at(s, 1)->Ok_0,
                        off_wait_time: spec_u16_at(s, 3)->Ok_0,
                    },
                    5,
                ),
            )
        }
    }

    /// The flag is written as 0xff when set.
    pub open spec fn spec_bytes(self) -> Seq<u8> {
        seq![if self.accept_only_when_on { 0xffu8 } else { 0u8 }] + u16_le(self.on_time) + u16_le(
            self.off_wait_time,
        )
    }

    pub fn try_read(bytes: &[u8]) -> (r: Result<(OnWithTimedOffCmd, usize), ParseError>)
        ensures
            r == OnWithTimedOffCmd::spec_parse(bytes@),
    {
        if bytes.len() < 5 {
            return Err(ParseError::Incomplete);
        }
        let on_time = match u16_at(bytes, 1) {
            Ok(v) => v,
            Err(e) => return Err(e),
        };
        let off_wait_time = match u16_at(bytes, 3) {
            Ok(v) => v,
            Err(e) => return Err(e),
        };
        Ok((OnWithTimedOffCmd { accept_only_when_on: bytes[0] != 0, on_time, off_wait_time }, 5))
    }

    /// Appends the command's five bytes.
    pub fn try_write(&self, out: &mut std::vec::Vec<u8>)
        ensures
            final(out)@ == old(out)@ + self.spec_bytes(),
    {
        let flag: u8 = if self.accept_only_when_on {
            0xff
        } else {
            0
        };
        out.push(flag);
        let ghost mid = out@;
        write_u16(out, self.on_time);
        let ghost mid2 = out@;
        write_u16(out, self.off_wait_time);
        proof {
            assert(mid == old(out)@ + seq![flag]);
            assert(out@ =~= old(out)@ + self.spec_bytes());
        }
    }
}

/// The effects read back as they were written.
pub proof fn lemma_effect_roundtrip(e: Effect)
    ensures
        Effect::spec_parse(e.spec_bytes()) == Ok::<(Effect, usize), ParseError>((e, 2)),
{
}

/// An on-with-timed-off command reads back as it was written, but for a
/// set flag, which reads back set whatever byte stood for it.
pub proof fn lemma_timed_off_roundtrip(c: OnWithTimedOffCmd)
    ensures
        OnWithTimedOffCmd::spec_parse(c.spec_bytes()) == Ok::<(OnWithTimedOffCmd, usize), ParseError>((c, 5)),
{
    let s = c.spec_bytes();
    crate::bytes::lemma_le_bytes_len(c.on_time as nat, 2);
    crate::bytes::lemma_le_bytes_len(c.off_wait_time as nat, 2);
    assert(s.subrange(1, 3) =~= u16_le(c.on_time));
    assert(s.subrange(3, 5) =~= u16_le(c.off_wait_time));
    crate::bytes::lemma_u16_read_back(s, 1, c.on_time);
    crate::bytes::lemma_u16_read_back(s, 3, c.off_wait_time);
}

impl OnOffZclCommand {
    /// The command `cmd_id` names, read from `s`, and how many bytes it took.
    pub open spec fn spec_parse(s: Seq<u8>, cmd_id: u8) -> Result<(OnOffZclCommand, usize), ParseError> {
        if cmd_id == 0x00 {
            Ok((OnOffZclCommand::Off, 0))
        } else if cmd_id == 0x01 {
            Ok((OnOffZclCommand::On, 0))
        } else if cmd_id == 0x02 {
            Ok((OnOffZclCommand::Toggle, 0))
        } else if cmd_id == 0x40 {
            match Effect::spec_parse(s) {
                Ok((e, n)) => Ok((OnOffZclCommand::OffWithEffect(e), n)),
                Err(err) => Err(err),
            }
        } else if cmd_id == 0x41 {
            Ok((OnOffZclCommand::OnWithRecallGlobalScene, 0))
        } else if cmd_id == 0x42 {
            match OnWithTimedOffCmd::spec_parse(s) {
                Ok((c, n)) => Ok((OnOffZclCommand::OnWithTimedOff(c), n)),
                Err(err) => Err(err),
            }
        } else {
            Err(ParseError::BadInput)
        }
    }

    pub fn try_read(bytes: &[u8], cmd_id: u8) -> (r: Result<(OnOffZclCommand, usize), ParseError>)
        ensures
            r == OnOffZclCommand::spec_parse(bytes@, cmd_id),
    {
        if cmd_id == 0x00 {
            Ok((OnOffZclCommand::Off, 0))
        } else if cmd_id == 0x01 {
            Ok((OnOffZclCommand::On, 0))
        } else if cmd_id == 0x02 {
            Ok((OnOffZclCommand::Toggle, 0))
        } else if cmd_id == 0x40 {
            match Effect::try_read(bytes) {
                Ok((e, n)) => Ok((OnOffZclCommand::OffWithEffect(e), n)),
                Err(err) => Err(err),
            }
        } else if cmd_id == 0x41 {
            Ok((OnOffZclCommand::OnWithRecallGlobalScene, 0))
        } else if cmd_id == 0x42 {
            match OnWithTimedOffCmd::try_read(bytes) {
                Ok((c, n)) => Ok((OnOffZclCommand::OnWithTimedOff(c), n)),
                Err(err) => Err(err),
            }
        } else {
            Err(ParseError::BadInput)
        }
    }
}

/// The state of an on/off cluster: whether it is on, the global scene
/// control, the on time and the off-wait time.
pub ghost struct OnOffState {
    pub on: bool,
    pub global_scene_control: bool,
    pub on_time: u16,
    pub off_wait_time: u16,
}

/// Switching on clears the off-wait time.
pub open spec fn spec_on(s: OnOffState) -> OnOffState {
    OnOffState { on: true, off_wait_time: 0, ..s }
}

/// Switching off clears the on time.
pub open spec fn spec_off(s: OnOffState) -> OnOffState {
    OnOffState { on: false, on_time: 0, ..s }
}

pub open spec fn spec_toggle(s: OnOffState) -> OnOffState {
    if s.on {
        spec_off(s)
    } else {
        spec_on(s)
    }
}

/// What a command does to the state. A recall of the global scene while
/// the control is set, and a timed on that only an on device accepts while
/// the device is off, change nothing. A timed on of an off device with an
/// off-wait time keeps the smaller off-wait time and leaves it off;
/// otherwise it switches on and keeps the larger on time.
/// How many times a command of the cluster switches the device on: once
/// for On, for Toggle of a device that is off, and for On with timed off
/// where it switches on (see [`spec_command`]).
pub open spec fn spec_command_ons(s: OnOffState, c: OnOffZclCommand) -> int {
    match c {
        OnOffZclCommand::On => 1,
        OnOffZclCommand::OnWithTimedOff(cmd) => if (cmd.accept_only_when_on && !s.on) || (cmd.off_wait_time > 0
            && !s.on) {
            0
        } else {
            1
        },
        OnOffZclCommand::Toggle => if s.on {
            0
        } else {
            1
        },
        _ => 0,
    }
}

/// How many times a command of the cluster switches the device off: once
/// for Off and Off with effect, and for Toggle of a device that is on.
pub open spec fn spec_command_offs(s: OnOffState, c: OnOffZclCommand) -> int {
    match c {
        OnOffZclCommand::Off => 1,
        OnOffZclCommand::OffWithEffect(_) => 1,
        OnOffZclCommand::Toggle => if s.on {
            1
        } else {
            0
        },
        _ => 0,
    }
}

pub open spec fn spec_command(s: OnOffState, c: OnOffZclCommand) -> OnOffState {
    match c {
        OnOffZclCommand::Off => spec_off(s),
        OnOffZclCommand::On => spec_on(s),
        OnOffZclCommand::Toggle => spec_toggle(s),
        OnOffZclCommand::OffWithEffect(_) => spec_off(s),
        OnOffZclCommand::OnWithRecallGlobalScene => if s.global_scene_control {
            s
        } else {
            OnOffState {
                global_scene_control: true,
                off_wait_time: if s.on_time == 0 {
                    0
                } else {
                    s.off_wait_time
                },
                ..s
            }
        },
        OnOffZclCommand::OnWithTimedOff(cmd) => if cmd.accept_only_when_on && !s.on {
            s
        } else if cmd.off_wait_time > 0 && !s.on {
            OnOffState {
                off_wait_time: if cmd.off_wait_time < s.off_wait_time {
                    cmd.off_wait_time
                } else {
                    s.off_wait_time
                },
                ..s
            }
        } else {
            OnOffState {
                on: true,
                on_time: if cmd.on_time > s.on_time {
                    cmd.on_time
                } else {
                    s.on_time
                },
                ..s
            }
        },
    }
}

/// One tick of the cluster's timers. An on device with an on time that is
/// neither 0 nor 0xffff counts it down and switches off, with no off-wait
/// time, when it reaches 0; otherwise the off-wait time counts down to 0.
pub open spec fn spec_tick(s: OnOffState) -> OnOffState {
    if s.on && s.on_time > 0 && s.on_time != 0xffff {
        if s.on_time - 1 == 0 {
            OnOffState { on: false, on_time: 0, off_wait_time: 0, ..s }
        } else {
            OnOffState { on_time: (s.on_time - 1) as u16, ..s }
        }
    } else {
        OnOffState {
            off_wait_time: if s.off_wait_time > 0 {
                (s.off_wait_time - 1) as u16
            } else {
                0
            },
            ..s
        }
    }
}

/// The on/off cluster of a device that `handler` switches.
pub struct OnOffCluster<H: OnOffClusterHandler> {
    pub onoff: OnOff,
    pub global_scene_control: GlobalSceneControl,
    pub on_time: OnTime,
    pub off_wait_time: OffWaitTime,
    pub handler: H,
}

impl<H: OnOffClusterHandler> OnOffCluster<H> {
    pub open spec fn spec_state(&self) -> OnOffState {
        OnOffState {
            on: self.onoff.value,
            global_scene_control: self.global_scene_control.value,
            on_time: self.on_time.value,
            off_wait_time: self.off_wait_time.value,
        }
    }

    /// A cluster that is off, with every timer and the scene control clear.
    pub fn new(handler: H) -> (r: Self)
        ensures
            r.spec_state() == (OnOffState { on: false, global_scene_control: false, on_time: 0, off_wait_time: 0 }),
            r.handler == handler,
    {
        OnOffCluster {
            onoff: OnOff::new(false),
            global_scene_control: GlobalSceneControl::new(false),
            on_time: OnTime::new(0),
            off_wait_time: OffWaitTime::new(0),
            handler,
        }
    }

    pub fn is_on(&self) -> (r: bool)
        ensures
            r == self.onoff.value,
    {
        self.onoff.value
    }

    pub fn is_off(&self) -> (r: bool)
        ensures
            r == !self.onoff.value,
    {
        !self.is_on()
    }

    /// Switches on, clears the off-wait time and tells the handler, once.
    pub fn on(&mut self)
        ensures
            final(self).spec_state() == spec_on(old(self).spec_state()),
            final(self).handler.turn_on_count() == old(self).handler.turn_on_count() + 1,
            final(self).handler.turn_off_count() == old(self).handler.turn_off_count(),
    {
        self.onoff.value = true;
        self.off_wait_time.value = 0;
        self.handler.turn_on();
    }

    /// Switches off, clears the on time and tells the handler, once.
    pub fn off(&mut self)
        ensures
            final(self).spec_state() == spec_off(old(self).spec_state()),
            final(self).handler.turn_off_count() == old(self).handler.turn_off_count() + 1,
            final(self).handler.turn_on_count() == old(self).handler.turn_on_count(),
    {
        self.onoff.value = false;
        self.on_time.value = 0;
        self.handler.turn_off();
    }

    /// Switches on an off device and off an on one.
    pub fn toggle(&mut self)
        ensures
            final(self).spec_state() == spec_toggle(old(self).spec_state()),
            final(self).onoff.value == !old(self).onoff.value,
            final(self).handler.turn_on_count() == old(self).handler.turn_on_count() + if old(self).onoff.value {
                0int
            } else {
                1int
            },
            final(self).handler.turn_off_count() == old(self).handler.turn_off_count() + if old(self).onoff.value {
                1int
            } else {
                0int
            },
    {
        if self.is_off() {
            self.on();
        } else {
            self.off();
        }
    }

    /// The cluster's attributes as the cluster library holds them.
    pub fn zcl_cluster(&self) -> (r: ZclCluster)
        ensures
            r.identifier == 0x0006,
            r.cluster_type == ClusterType::Server,
            r.spec_attrs() == map![
                0x0000u16 => self.onoff.spec_attribute(),
                0x4000u16 => self.global_scene_control.spec_attribute(),
                0x4001u16 => self.on_time.spec_attribute(),
                0x4002u16 => self.off_wait_time.spec_attribute(),
            ],
    {
        let mut c = ZclCluster::new(0x0006, ClusterType::Server);
        let _ = c.add_attribute(self.onoff.attribute());
        let _ = c.add_attribute(self.global_scene_control.attribute());
        let _ = c.add_attribute(self.on_time.attribute());
        let _ = c.add_attribute(self.off_wait_time.attribute());
        proof {
            assert(c.spec_attrs() =~= map![
                0x0000u16 => self.onoff.spec_attribute(),
                0x4000u16 => self.global_scene_control.spec_attribute(),
                0x4001u16 => self.on_time.spec_attribute(),
                0x4002u16 => self.off_wait_time.spec_attribute(),
            ]);
        }
        c
    }
}

/// Runs a command of the cluster (see [`spec_command`]); a command that
/// cannot be read changes nothing. No command is answered.
pub fn on_off_custom_command_handler<H: OnOffClusterHandler>(
    this: &mut OnOffCluster<H>,
    cmd: &SpecificZclCommand,
) -> (r: Option<ZclFrameCommand>)
    ensures
        r is None,
        match OnOffZclCommand::spec_parse(cmd.data@, cmd.identifier) {
            Ok((c, _)) => {
                &&& final(this).spec_state() == spec_command(old(this).spec_state(), c)
                &&& final(this).handler.turn_on_count() == old(this).handler.turn_on_count() + spec_command_ons(
                    old(this).spec_state(),
                    c,
                )
                &&& final(this).handler.turn_off_count() == old(this).handler.turn_off_count() + spec_command_offs(
                    old(this).spec_state(),
                    c,
                )
            },
            Err(_) => final(this).spec_state() == old(this).spec_state() && final(this).handler.turn_on_count()
                == old(this).handler.turn_on_count() && final(this).handler.turn_off_count()
                == old(this).handler.turn_off_count(),
        },
{
    let parsed = OnOffZclCommand::try_read(cmd.data.as_slice(), cmd.identifier);
    let c = match parsed {
        Ok((c, _)) => c,
        Err(_) => return None,
    };
    match c {
        OnOffZclCommand::Off => this.off(),
        OnOffZclCommand::On => this.on(),
        OnOffZclCommand::Toggle => this.toggle(),
        OnOffZclCommand::OffWithEffect(_) => this.off(),
        OnOffZclCommand::OnWithRecallGlobalScene => {
            if this.global_scene_control.value {
                return None;
            }
            this.global_scene_control.value = true;
            if this.on_time.value == 0 {
                this.off_wait_time.value = 0;
            }
        },
        OnOffZclCommand::OnWithTimedOff(timed) => {
            if timed.accept_only_when_on && !this.onoff.value {
                return None;
            }
            if timed.off_wait_time > 0 && !this.onoff.value {
                if timed.off_wait_time < this.off_wait_time.value {
                    this.off_wait_time.value = timed.off_wait_time;
                }
            } else {
                if timed.on_time > this.on_time.value {
                    this.on_time.value = timed.on_time;
                }
                this.onoff.value = true;
                this.handler.turn_on();
            }
        },
    }
    None
}

/// One tick of the cluster's timers (see [`spec_tick`]).
pub fn on_off_update_handler<H: OnOffClusterHandler>(this: &mut OnOffCluster<H>)
    ensures
        final(this).spec_state() == spec_tick(old(this).spec_state()),
        final(this).handler.turn_on_count() == old(this).handler.turn_on_count(),
        final(this).handler.turn_off_count() == old(this).handler.turn_off_count() + if old(this).onoff.value
            && old(this).on_time.value == 1 {
            1int
        } else {
            0int
        },
{
    if this.is_on() && this.on_time.value > 0 && this.on_time.value != 0xffff {
        this.on_time.value = this.on_time.value - 1;
        if this.on_time.value == 0 {
            this.off();
            this.off_wait_time.value = 0;
        }
    } else {
        if this.off_wait_time.value > 0 {
            this.off_wait_time.value = this.off_wait_time.value - 1;
        }
    }
}

/// On with timed off, received by a device that is off with an off-wait
/// time in the command, only shortens the off-wait time: it becomes the
/// smaller of the command's and the one before, and the device stays off
/// with its on time and scene control as they were.
pub proof fn lemma_timed_off_while_off(s: OnOffState, cmd: OnWithTimedOffCmd)
    requires
        !s.on,
        !cmd.accept_only_when_on,
        cmd.off_wait_time > 0,
    ensures
        ({
            let r = spec_command(s, OnOffZclCommand::OnWithTimedOff(cmd));
            &&& r.off_wait_time <= s.off_wait_time
            &&& r.off_wait_time <= cmd.off_wait_time
            &&& (r.off_wait_time == s.off_wait_time || r.off_wait_time == cmd.off_wait_time)
            &&& !r.on
            &&& r.on_time == s.on_time
            &&& r.global_scene_control == s.global_scene_control
        }),
{
}

/// What each command of the cluster does to its attributes: Off (with
/// effect or not) switches off and clears the on time; On switches on and
/// clears the off-wait time; Toggle does one or the other; a recall of the
/// global scene sets the scene control once, clearing the off-wait time
/// where there is no on time; On with timed off switches on with the larger
/// of the two on times unless it is ignored (only when on, and off) or the
/// device is off with an off-wait time in the command. The scene control
/// changes by the recall alone.
pub proof fn lemma_command_effects(s: OnOffState, c: OnOffZclCommand)
    ensures
        ({
            let r = spec_command(s, c);
            &&& (c is Off || c is OffWithEffect) ==> !r.on && r.on_time == 0 && r.off_wait_time == s.off_wait_time
                && r.global_scene_control == s.global_scene_control
            &&& c is On ==> r.on && r.off_wait_time == 0 && r.on_time == s.on_time && r.global_scene_control
                == s.global_scene_control
            &&& c is Toggle ==> r.on == !s.on && r.global_scene_control == s.global_scene_control && (s.on ==> r.on_time
                == 0 && r.off_wait_time == s.off_wait_time) && (!s.on ==> r.off_wait_time == 0 && r.on_time
                == s.on_time)
            &&& (c is OnWithRecallGlobalScene && s.global_scene_control) ==> r == s
            &&& (c is OnWithRecallGlobalScene && !s.global_scene_control) ==> r.global_scene_control && r.on == s.on
                && r.on_time == s.on_time && r.off_wait_time == (if s.on_time == 0 {
                0
            } else {
                s.off_wait_time
            })
            &&& c matches OnOffZclCommand::OnWithTimedOff(t) ==> ((t.accept_only_when_on && !s.on) ==> r == s)
            &&& c matches OnOffZclCommand::OnWithTimedOff(t) ==> ((!(t.accept_only_when_on && !s.on) && !(
            t.off_wait_time > 0 && !s.on)) ==> r.on && r.on_time >= t.on_time && r.on_time >= s.on_time && (
            r.on_time == t.on_time || r.on_time == s.on_time) && r.off_wait_time == s.off_wait_time
                && r.global_scene_control == s.global_scene_control)
        }),
{
}

/// One tick of the timers: an on device counts its on time (neither 0 nor
/// 0xffff) down, switching off with both timers clear when it runs out;
/// otherwise only the off-wait time counts down, stopping at 0.
pub proof fn lemma_tick_effects(s: OnOffState)
    ensures
        ({
            let r = spec_tick(s);
            &&& r.global_scene_control == s.global_scene_control
            &&& (s.on && 1 < s.on_time < 0xffff) ==> r.on && r.on_time == s.on_time - 1 && r.off_wait_time
                == s.off_wait_time
            &&& (s.on && s.on_time == 1) ==> !r.on && r.on_time == 0 && r.off_wait_time == 0
            &&& !(s.on && 0 < s.on_time < 0xffff) ==> r.on == s.on && r.on_time == s.on_time && r.off_wait_time
                == (if s.off_wait_time > 0 {
                s.off_wait_time - 1
            } else {
                0
            })
        }),
{
}

/// Toggling twice gives back whether the device was on.
pub proof fn lemma_toggle_twice(s: OnOffState)
    ensures
        spec_toggle(spec_toggle(s)).on == s.on,
{
}

/// A toggle command does what `toggle` does, and an off-with-effect what
/// `off` does, whatever the effect.
pub proof fn lemma_commands_match_methods(s: OnOffState, e: Effect)
    ensures
        spec_command(s, OnOffZclCommand::Toggle) == spec_toggle(s),
        spec_command(s, OnOffZclCommand::OffWithEffect(e)) == spec_off(s),
        spec_command(s, OnOffZclCommand::On) == spec_on(s),
        spec_command(s, OnOffZclCommand::Off) == spec_off(s),
{
}

/// An on device with a running on time is off once that many ticks have
/// passed, with both timers clear.
pub proof fn lemma_timed_on_expires(s: OnOffState)
    requires
        s.on,
        0 < s.on_time < 0xffff,
    ensures
        spec_ticks(s, s.on_time as nat) == (OnOffState { on: false, on_time: 0, off_wait_time: 0, ..s }),
    decreases s.on_time,
{
    let t = spec_tick(s);
    assert(spec_ticks(s, s.on_time as nat) == spec_ticks(t, (s.on_time - 1) as nat));
    if s.on_time > 1 {
        assert(t.on_time == s.on_time - 1);
        lemma_timed_on_expires(t);
    } else {
        assert(spec_ticks(t, 0) == t);
    }
}

/// `n` ticks of the timers.
pub open spec fn spec_ticks(s: OnOffState, n: nat) -> OnOffState
    decreases n,
{
    if n == 0 {
        s
    } else {
        spec_ticks(spec_tick(s), (n - 1) as nat)
    }
}

/// The commands of the cluster by identifier: 0x00 Off, 0x01 On, 0x02
/// Toggle, 0x40 Off with effect, 0x41 On with recall of the global scene,
/// 0x42 On with timed off, whose five bytes are the flag (any byte but 0 is
/// set), the on time and the off-wait time, low byte first; no other
/// identifier is a command.
pub proof fn lemma_command_identifiers(s: Seq<u8>, id: u8)
    ensures
        id == 0x00 ==> OnOffZclCommand::spec_parse(s, id) == Ok::<(OnOffZclCommand, usize), ParseError>((OnOffZclCommand::Off, 0)),
        id == 0x01 ==> OnOffZclCommand::spec_parse(s, id) == Ok::<(OnOffZclCommand, usize), ParseError>((OnOffZclCommand::On, 0)),
        id == 0x02 ==> OnOffZclCommand::spec_parse(s, id) == Ok::<(OnOffZclCommand, usize), ParseError>((OnOffZclCommand::Toggle, 0)),
        id == 0x40 ==> (OnOffZclCommand::spec_parse(s, id) matches Ok((c, _)) ==> c is OffWithEffect),
        id == 0x41 ==> OnOffZclCommand::spec_parse(s, id) == Ok::<(OnOffZclCommand, usize), ParseError>(
            (OnOffZclCommand::OnWithRecallGlobalScene, 0),
        ),
        (id == 0x42 && s.len() >= 5) ==> OnOffZclCommand::spec_parse(s, id) == Ok::<(OnOffZclCommand, usize), ParseError>(
            (
                OnOffZclCommand::OnWithTimedOff(
                    OnWithTimedOffCmd {
                        accept_only_when_on: s[0] != 0,
                        on_time: (s[1] as int + 256 * s[2] as int) as u16,
                        off_wait_time: (s[3] as int + 256 * s[4] as int) as u16,
                    },
                ),
                5,
            ),
        ),
        !(id == 0x00 || id == 0x01 || id == 0x02 || id == 0x40 || id == 0x41 || id == 0x42) ==> OnOffZclCommand::spec_parse(
            s,
            id,
        ) is Err,
{
    if id == 0x42 && s.len() >= 5 {
        crate::bytes::lemma_u16_at_value(s, 1);
        crate::bytes::lemma_u16_at_value(s, 3);
    }
}

} // verus!
