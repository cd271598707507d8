use zigbee::bytes::ParseError;
use zigbee::clusters::basic::{
    basic_cmd_handler, AlarmMask, BasicCluster, BasicClusterConfig, BasicZclCommand, DisableLocalConfigMask,
    PhysicalEnvironments, PowerSources,
};
use zigbee::clusters::identify::{
    identify_custom_command_handler, identify_update_handler, EffectIdentifier, EffectVariant, IdentifyCluster,
    IdentifyClusterHandler, IdentifyZclCommand,
};
use zigbee::clusters::onoff::{
    on_off_custom_command_handler, on_off_update_handler, DelayedEffects, DyingLightEffects, Effect, OnOffCluster,
    OnOffClusterHandler, OnOffZclCommand, OnWithTimedOffCmd,
};
use zigbee::clusters::temperature::{MaxMeasuredValue, MeasuredValue, MinMeasuredValue, Temperature, Tolerance};
use zigbee::collections::Vec;
use zigbee::zcl::cluster::{Attribute, ClusterType};
use zigbee::zcl::command::ReadAttributesCommand;
use zigbee::zcl::frame::{SpecificZclCommand, ZclFrameCommand};
use zigbee::zcl::types::{ZclData, ZclStatus};

#[derive(Debug, Default)]
struct Lamp {
    ons: u32,
    offs: u32,
}

impl OnOffClusterHandler for Lamp {
    fn turn_on(&mut self) {
        self.ons += 1;
    }

    fn turn_off(&mut self) {
        self.offs += 1;
    }
}

fn cmd(identifier: u8, data: &[u8]) -> SpecificZclCommand {
    SpecificZclCommand { identifier, data: data.to_vec() }
}

fn state(c: &OnOffCluster<Lamp>) -> (bool, bool, u16, u16) {
    (c.onoff.value, c.global_scene_control.value, c.on_time.value, c.off_wait_time.value)
}

#[test]
fn onoff_toggle_flips_and_twice_restores() {
    let mut c = OnOffCluster::new(Lamp::default());
    assert!(c.is_off());
    c.toggle();
    assert!(c.is_on());
    assert_eq!(c.handler.ons, 1);
    c.toggle();
    assert!(c.is_off());
    assert_eq!(c.handler.offs, 1);
}

#[test]
fn onoff_on_clears_off_wait_and_off_clears_on_time() {
    let mut c = OnOffCluster::new(Lamp::default());
    c.off_wait_time.value = 9;
    c.on_time.value = 7;
    c.on();
    assert_eq!(state(&c), (true, false, 7, 0));
    c.off();
    assert_eq!(state(&c), (false, false, 0, 0));
}

#[test]
fn onoff_parses_commands() {
    assert!(matches!(OnOffZclCommand::try_read(&[], 0x00), Ok((OnOffZclCommand::Off, 0))));
    assert!(matches!(OnOffZclCommand::try_read(&[], 0x02), Ok((OnOffZclCommand::Toggle, 0))));
    assert_eq!(
        OnOffZclCommand::try_read(&[0, 1], 0x40),
        Ok((OnOffZclCommand::OffWithEffect(Effect::DelayedAllOff(DelayedEffects::NoFade)), 2))
    );
    assert_eq!(
        OnOffZclCommand::try_read(&[1, 0], 0x40),
        Ok((OnOffZclCommand::OffWithEffect(Effect::DyingLight(DyingLightEffects::DimUpThenFadeOff)), 2))
    );
    assert_eq!(OnOffZclCommand::try_read(&[0, 3], 0x40), Err(ParseError::BadInput));
    assert_eq!(OnOffZclCommand::try_read(&[2, 0], 0x40), Err(ParseError::BadInput));
    assert_eq!(OnOffZclCommand::try_read(&[0], 0x40), Err(ParseError::Incomplete));
    assert_eq!(
        OnOffZclCommand::try_read(&[1, 0x10, 0x00, 0x05, 0x00], 0x42),
        Ok((
            OnOffZclCommand::OnWithTimedOff(OnWithTimedOffCmd {
                accept_only_when_on: true,
                on_time: 0x10,
                off_wait_time: 5
            }),
            5
        ))
    );
    assert_eq!(OnOffZclCommand::try_read(&[1, 0x10, 0x00, 0x05], 0x42), Err(ParseError::Incomplete));
    assert_eq!(OnOffZclCommand::try_read(&[], 0x43), Err(ParseError::BadInput));
}

#[test]
fn onoff_effects_and_timed_off_read_back() {
    for e in [
        Effect::DelayedAllOff(DelayedEffects::NoFade),
        Effect::DelayedAllOff(DelayedEffects::DimDownThenFade),
        Effect::DyingLight(DyingLightEffects::DimUpThenFadeOff),
    ] {
        let mut out = std::vec::Vec::new();
        e.try_write(&mut out);
        assert_eq!(Effect::try_read(&out), Ok((e, 2)));
    }
    let c = OnWithTimedOffCmd { accept_only_when_on: true, on_time: 0x1234, off_wait_time: 0xabcd };
    let mut out = std::vec::Vec::new();
    c.try_write(&mut out);
    assert_eq!(out, vec![0xff, 0x34, 0x12, 0xcd, 0xab]);
    assert_eq!(OnWithTimedOffCmd::try_read(&out), Ok((c, 5)));
}

#[test]
fn onoff_commands_drive_the_state() {
    let mut c = OnOffCluster::new(Lamp::default());
    assert!(on_off_custom_command_handler(&mut c, &cmd(0x01, &[])).is_none());
    assert!(c.is_on());
    assert!(on_off_custom_command_handler(&mut c, &cmd(0x40, &[0, 2])).is_none());
    assert!(c.is_off());
    assert!(on_off_custom_command_handler(&mut c, &cmd(0x02, &[])).is_none());
    assert!(c.is_on());
    // An unreadable command changes nothing.
    let before = state(&c);
    assert!(on_off_custom_command_handler(&mut c, &cmd(0x40, &[9, 9])).is_none());
    assert_eq!(state(&c), before);
}

#[test]
fn onoff_recall_global_scene() {
    let mut c = OnOffCluster::new(Lamp::default());
    c.off_wait_time.value = 4;
    on_off_custom_command_handler(&mut c, &cmd(0x41, &[]));
    assert_eq!(state(&c), (false, true, 0, 0));
    c.off_wait_time.value = 4;
    on_off_custom_command_handler(&mut c, &cmd(0x41, &[]));
    assert_eq!(state(&c), (false, true, 0, 4));
}

#[test]
fn onoff_timed_off_paths() {
    // Accepted only when on, while off: nothing changes.
    let mut c = OnOffCluster::new(Lamp::default());
    on_off_custom_command_handler(&mut c, &cmd(0x42, &[1, 10, 0, 3, 0]));
    assert_eq!(state(&c), (false, false, 0, 0));
    assert_eq!(c.handler.ons, 0);
    // Off with an off-wait time: the smaller off-wait time is kept.
    c.off_wait_time.value = 8;
    on_off_custom_command_handler(&mut c, &cmd(0x42, &[0, 10, 0, 3, 0]));
    assert_eq!(state(&c), (false, false, 0, 3));
    // Otherwise the device goes on with the larger on time.
    c.on();
    c.on_time.value = 20;
    on_off_custom_command_handler(&mut c, &cmd(0x42, &[0, 10, 0, 3, 0]));
    assert_eq!(state(&c), (true, false, 20, 0));
    on_off_custom_command_handler(&mut c, &cmd(0x42, &[0, 30, 0, 3, 0]));
    assert_eq!(state(&c), (true, false, 30, 0));
}

#[test]
fn onoff_timed_on_runs_out() {
    let mut c = OnOffCluster::new(Lamp::default());
    c.on();
    c.on_time.value = 3;
    c.off_wait_time.value = 0;
    on_off_update_handler(&mut c);
    assert_eq!(state(&c), (true, false, 2, 0));
    on_off_update_handler(&mut c);
    on_off_update_handler(&mut c);
    assert_eq!(state(&c), (false, false, 0, 0));
    assert_eq!(c.handler.offs, 1);
    // An on time of 0xffff never runs out; off-wait counts down to 0.
    c.on();
    c.on_time.value = 0xffff;
    c.off_wait_time.value = 1;
    on_off_update_handler(&mut c);
    on_off_update_handler(&mut c);
    assert_eq!(state(&c), (true, false, 0xffff, 0));
}

#[test]
fn onoff_cluster_attributes_read_through_the_library() {
    let mut c = OnOffCluster::new(Lamp::default());
    c.on();
    c.on_time.value = 12;
    let zc = c.zcl_cluster();
    assert_eq!(zc.identifier, 0x0006);
    assert_eq!(zc.cluster_type, ClusterType::Server);
    let r = zc.read_attributes(&ReadAttributesCommand {
        attributes: Vec::from_slice(&[0x0000, 0x4001, 0x4002, 0x4003]).unwrap(),
    });
    assert_eq!(r.get(0).data, Some(ZclData::Bool(true)));
    assert_eq!(r.get(1).data, Some(ZclData::UInt16(12)));
    assert_eq!(r.get(2).data, Some(ZclData::UInt16(0)));
    assert_eq!(r.get(3).status, ZclStatus::UnsupportedAttribute);
}

#[derive(Debug, Default)]
struct Beacon {
    started: std::vec::Vec<u16>,
    stops: u32,
    effects: std::vec::Vec<EffectIdentifier>,
}

impl IdentifyClusterHandler for Beacon {
    fn identify_start(&mut self, seconds: u16) {
        self.started.push(seconds);
    }

    fn identify_stop(&mut self) {
        self.stops += 1;
    }

    fn identify_effect(&mut self, identifier: EffectIdentifier, _variant: EffectVariant) {
        self.effects.push(identifier);
    }
}

#[test]
fn identify_parses_commands() {
    assert_eq!(IdentifyZclCommand::try_read(&[0x05, 0x01], 0x00), Ok((IdentifyZclCommand::Identify(0x0105), 2)));
    assert_eq!(IdentifyZclCommand::try_read(&[0x05], 0x00), Err(ParseError::Incomplete));
    assert_eq!(IdentifyZclCommand::try_read(&[], 0x01), Ok((IdentifyZclCommand::IdentifyQuery, 0)));
    assert_eq!(
        IdentifyZclCommand::try_read(&[0x0b, 0x00], 0x40),
        Ok((IdentifyZclCommand::TriggerEffect(EffectIdentifier::ChannelChange, EffectVariant::Default), 2))
    );
    assert_eq!(IdentifyZclCommand::try_read(&[0x03, 0x00], 0x40), Err(ParseError::BadInput));
    assert_eq!(IdentifyZclCommand::try_read(&[0xfe, 0x01], 0x40), Err(ParseError::BadInput));
    assert_eq!(IdentifyZclCommand::try_read(&[0xff], 0x40), Err(ParseError::Incomplete));
    assert_eq!(IdentifyZclCommand::try_read(&[], 0x02), Err(ParseError::BadInput));
    for e in [
        EffectIdentifier::Blink,
        EffectIdentifier::Breathe,
        EffectIdentifier::Okay,
        EffectIdentifier::ChannelChange,
        EffectIdentifier::Finish,
        EffectIdentifier::Stop,
    ] {
        assert_eq!(EffectIdentifier::try_read(&[e.to_u8()]), Ok((e, 1)));
    }
}

#[test]
fn identify_commands_and_query() {
    let mut c = IdentifyCluster::new(Beacon::default());
    assert!(identify_custom_command_handler(&mut c, &cmd(0x01, &[])).is_none());
    assert!(identify_custom_command_handler(&mut c, &cmd(0x00, &[0x0a, 0x00])).is_none());
    assert_eq!(c.identify_time.get_value(), 10);
    assert_eq!(c.handler.started, vec![10]);
    match identify_custom_command_handler(&mut c, &cmd(0x01, &[])) {
        Some(ZclFrameCommand::Specific(r)) => {
            assert_eq!(r.identifier, 0x00);
            assert_eq!(r.data, vec![0x0a, 0x00]);
        },
        _ => panic!("a query of an identifying device is answered"),
    }
    identify_custom_command_handler(&mut c, &cmd(0x40, &[0x00, 0x00]));
    assert_eq!(c.handler.effects, vec![EffectIdentifier::Blink]);
    identify_custom_command_handler(&mut c, &cmd(0x00, &[0x00, 0x00]));
    assert_eq!(c.handler.stops, 1);
    assert_eq!(c.identify_time.value, 0);
}

#[test]
fn identify_time_counts_down_to_zero() {
    let mut c = IdentifyCluster::new(Beacon::default());
    c.identify_time.set_value(2).unwrap();
    identify_update_handler(&mut c);
    assert_eq!(c.identify_time.value, 1);
    identify_update_handler(&mut c);
    identify_update_handler(&mut c);
    assert_eq!(c.identify_time.value, 0);
    let zc = c.zcl_cluster();
    assert_eq!(zc.identifier, 0x0003);
}

#[test]
fn basic_cluster_from_config() {
    let config = BasicClusterConfig {
        application_version: 3,
        stack_version: 4,
        hw_version: 5,
        manufacturer_name: "acme".to_string(),
        model_identifier: "lamp".to_string(),
        date_code: "2024".to_string(),
        power_source: PowerSources::Battery,
        sw_build_id: "1.0".to_string(),
    };
    let b = BasicCluster::with_config(config);
    assert_eq!(b.version.value, 2);
    assert_eq!(b.application_version.value, 3);
    assert_eq!(b.manufacturer_name.value, "acme");
    assert!(b.device_enabled.value);
    assert_eq!(b.physical_environment.value, PhysicalEnvironments::UnspecifiedEnvironment);
    let zc = b.zcl_cluster();
    assert_eq!(zc.identifier, 0x0000);
    assert_eq!(zc.cluster_type, ClusterType::Client);
    let r = zc.read_attributes(&ReadAttributesCommand {
        attributes: Vec::from_slice(&[0x0000, 0x0004, 0x0007, 0x0015]).unwrap(),
    });
    assert_eq!(r.get(0).data, Some(ZclData::UInt8(2)));
    assert_eq!(r.get(1).data, Some(ZclData::String("acme".to_string())));
    assert_eq!(r.get(2).data, Some(ZclData::Enum8(3)));
    assert_eq!(r.get(3).data, Some(ZclData::String("1.0".to_string())));
    let d = BasicClusterConfig::default();
    assert_eq!(d.power_source, PowerSources::Unknown);
    assert_eq!(d.manufacturer_name, "");
}

#[test]
fn basic_enumerations_read_back() {
    for v in 0u8..=255 {
        match PhysicalEnvironments::try_from_u8(v) {
            Ok(e) => assert_eq!(e.to_u8(), v),
            Err(()) => assert!((0x5a..=0x5f).contains(&v) || (0x70..=0xfe).contains(&v)),
        }
        match PowerSources::try_from_u8(v) {
            Ok(p) => assert_eq!(p.to_u8(), v),
            Err(()) => assert!(v > 6),
        }
    }
    assert_eq!(PhysicalEnvironments::try_from_u8(0xff), Ok(PhysicalEnvironments::UnknownEnvironment));
    let a = AlarmMask { general_hardware_fault: false, general_software_fault: true };
    assert_eq!(a.to_u8(), 2);
    assert_eq!(AlarmMask::from_u8(a.to_u8()), a);
    let d = DisableLocalConfigMask { reset_to_factory_defaults_disabled: true, device_configuration_disabled: true };
    assert_eq!(DisableLocalConfigMask::from_u8(0xff), d);
}

#[test]
fn basic_commands() {
    assert_eq!(BasicZclCommand::try_read(&[], 0x00), Ok((BasicZclCommand::ResetToFactoryDefaults, 0)));
    assert_eq!(BasicZclCommand::try_read(&[], 0x01), Err(ParseError::BadInput));
    let mut b = BasicCluster::with_config(BasicClusterConfig::default());
    assert!(basic_cmd_handler(&mut b, &cmd(0x05, &[])).is_none());
}

#[test]
fn temperature_bounds_are_checked() {
    let mut min = MinMeasuredValue::new(0);
    assert_eq!(min.set_value(-27316), Err(ZclStatus::InvalidValue));
    assert_eq!(min.get_value(), 0);
    assert_eq!(min.set_value(-27315), Ok(()));
    assert_eq!(min.value, -27315);
    let mut max = MaxMeasuredValue::new(0);
    assert_eq!(max.set_value(32767), Err(ZclStatus::InvalidValue));
    assert_eq!(max.set_value(32766), Ok(()));
    let mut tol = Tolerance::new(0);
    assert_eq!(tol.set_value(0x8001), Err(ZclStatus::InvalidValue));
    assert_eq!(tol.set_value(0x8000), Ok(()));
    assert_eq!(tol.validate_value(&0x8001), Err(ZclStatus::InvalidValue));
}

#[test]
fn temperature_cluster_lists_its_attributes() {
    let t = Temperature {
        measured_value: MeasuredValue::new(2150),
        min_measured_value: MinMeasuredValue::new(-4000),
        max_measured_value: MaxMeasuredValue::new(12500),
        tolerance: Tolerance::new(10),
    };
    let zc = t.zcl_cluster();
    assert_eq!(zc.identifier, 0x0402);
    let d = zc.discover_attributes(0, 10);
    assert_eq!(d.len(), 4);
    assert_eq!(d.get(0).identifier, 0x0000);
    assert_eq!(d.get(0).data_type, 0x29);
    assert_eq!(d.get(3).identifier, 0x0004);
    assert_eq!(d.get(3).data_type, 0x21);
}

#[test]
fn switching_calls_the_handler_once() {
    let mut c = OnOffCluster::new(Lamp::default());
    c.on();
    assert_eq!((c.handler.ons, c.handler.offs), (1, 0));
    c.off();
    assert_eq!((c.handler.ons, c.handler.offs), (1, 1));
    c.toggle();
    assert_eq!((c.handler.ons, c.handler.offs), (2, 1));
    c.toggle();
    assert_eq!((c.handler.ons, c.handler.offs), (2, 2));
}
