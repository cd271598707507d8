//! How a cluster answers the commands of every cluster.
use vstd::prelude::*;

use crate::collections::Vec;
use crate::zcl::cluster::{
    config_cmd_complete, configs_ok, discover_ok, read_configs_ok, reads_ok, undivided_ok,
    write_recs, writes_ok, ZclCluster,
};
use crate::zcl::command::{
    ConfigureReportingResponseCommand, DefaultResponseCommand, DiscoverAttributesResponseCommand,
    DiscoverCommandsReceivedResponseCommand, GlobalZclCommand, ReadAttributesResponseCommand,
    ReadReportingConfigurationResponseCommand, WriteAttributesResponseCommand,
};
use crate::zcl::frame::{ZclDirection, ZclFrame, ZclFrameCommand, ZclFrameControl, ZclFrameType, ZclHeader};
use crate::zcl::types::ZclStatus;

verus! {

/// The default response to the command `command_identifier`.
pub fn generate_default_response(command_identifier: u8, status: ZclStatus) -> (r: ZclFrameCommand)
    ensures
        r matches ZclFrameCommand::Global(GlobalZclCommand::DefaultResponse(d))
            && d == (DefaultResponseCommand { command_identifier, status_code: status }),
{
    ZclFrameCommand::Global(GlobalZclCommand::DefaultResponse(DefaultResponseCommand { command_identifier, status_code: status }))
}

/// What a cluster answers to a command of every cluster, and how it changes.
pub open spec fn spec_global_answer(
    cmd: &GlobalZclCommand,
    old_cluster: &ZclCluster,
    new_cluster: &ZclCluster,
    r: Option<ZclFrameCommand>,
) -> bool {
    let m0 = old_cluster.spec_attrs();
    let m1 = new_cluster.spec_attrs();
    &&& new_cluster.identifier == old_cluster.identifier
    &&& new_cluster.cluster_type == old_cluster.cluster_type
    &&& match cmd {
        GlobalZclCommand::ReadAttributes(c) => m1 == m0 && (r matches Some(
            ZclFrameCommand::Global(GlobalZclCommand::ReadAttributesResponse(a)),
        ) && reads_ok(m0, c.attributes@, a.attribute_statuses@)),
        GlobalZclCommand::WriteAttributes(c) => r matches Some(
            ZclFrameCommand::Global(GlobalZclCommand::WriteAttributesResponse(a)),
        ) && writes_ok(m0, write_recs(c), a.attributes@, m1),
        GlobalZclCommand::WriteAttributesUndivided(c) => r matches Some(
            ZclFrameCommand::Global(GlobalZclCommand::WriteAttributesResponse(a)),
        ) && undivided_ok(m0, write_recs(c), a.attributes@, m1),
        GlobalZclCommand::WriteAttributesNoResponse(c) => r is None && exists|s: Seq<crate::zcl::command::WriteAttributeStatusRecord>|
            writes_ok(m0, write_recs(c), s, m1),
        GlobalZclCommand::ConfigureReporting(c) => r matches Some(
            ZclFrameCommand::Global(GlobalZclCommand::ConfigureReportingResponse(a)),
        ) && configs_ok(m0, c, a.configuration_records@, m1),
        GlobalZclCommand::ReadReportingConfiguration(c) => m1 == m0 && (r matches Some(
            ZclFrameCommand::Global(GlobalZclCommand::ReadReportingConfigurationResponse(a)),
        ) && read_configs_ok(m0, c.attributes@, a.attributes@)),
        GlobalZclCommand::DiscoverAttributes(c) => m1 == m0 && (r matches Some(
            ZclFrameCommand::Global(GlobalZclCommand::DiscoverAttributesResponse(a)),
        ) && a.discovery_complete && discover_ok(m0, c.start_attribute_identifier, c.maximum_attribute_identifiers, a.attributes@)),
        GlobalZclCommand::DiscoverCommandsReceived(_) => m1 == m0 && (r matches Some(
            ZclFrameCommand::Global(GlobalZclCommand::DiscoverCommandsReceivedResponse(a)),
        ) && !a.discovery_complete && a.identifiers@.len() == 0),
        _ => m1 == m0 && r is None,
    }
}

/// Answers a command of every cluster on `cluster`: reads, writes,
/// reporting configurations and attribute listings get their responses
/// (writes without response get none); a listing of commands gets an empty
/// one; anything else gets no answer here.
pub fn handle_global_command(cmd: &GlobalZclCommand, cluster: &mut ZclCluster) -> (r: Option<ZclFrameCommand>)
    requires
        cmd matches GlobalZclCommand::ConfigureReporting(c) ==> config_cmd_complete(&c),
    ensures
        spec_global_answer(cmd, &*old(cluster), &*final(cluster), r),
{
    let global = match cmd {
        GlobalZclCommand::ReadAttributes(attrs) => {
            let rsp = cluster.read_attributes(attrs);
            Some(GlobalZclCommand::ReadAttributesResponse(ReadAttributesResponseCommand { attribute_statuses: rsp }))
        },
        GlobalZclCommand::WriteAttributes(attrs) => {
            let rsp = cluster.write_attributes(attrs);
            Some(GlobalZclCommand::WriteAttributesResponse(WriteAttributesResponseCommand { attributes: rsp }))
        },
        GlobalZclCommand::WriteAttributesUndivided(attrs) => {
            let rsp = cluster.write_attributes_undivided(attrs);
            Some(GlobalZclCommand::WriteAttributesResponse(WriteAttributesResponseCommand { attributes: rsp }))
        },
        GlobalZclCommand::WriteAttributesNoResponse(attrs) => {
            let rsp = cluster.write_attributes(attrs);
            proof {
                assert(writes_ok(old(cluster).spec_attrs(), write_recs(attrs), rsp@, cluster.spec_attrs()));
            }
            None
        },
        GlobalZclCommand::ConfigureReporting(attrs) => {
            let rsp = cluster.configure_reporting(attrs);
            Some(GlobalZclCommand::ConfigureReportingResponse(ConfigureReportingResponseCommand { configuration_records: rsp }))
        },
        GlobalZclCommand::ReadReportingConfiguration(attrs) => {
            let rsp = cluster.read_reporting_config(attrs);
            Some(GlobalZclCommand::ReadReportingConfigurationResponse(ReadReportingConfigurationResponseCommand { attributes: rsp }))
        },
        GlobalZclCommand::DiscoverAttributes(attrs) => {
            let rsp = cluster.discover_attributes(attrs.start_attribute_identifier, attrs.maximum_attribute_identifiers);
            Some(GlobalZclCommand::DiscoverAttributesResponse(DiscoverAttributesResponseCommand { discovery_complete: true, attributes: rsp }))
        },
        GlobalZclCommand::DiscoverCommandsReceived(_) => {
            Some(GlobalZclCommand::DiscoverCommandsReceivedResponse(DiscoverCommandsReceivedResponseCommand {
                discovery_complete: false,
                identifiers: Vec::new(),
            }))
        },
        _ => None,
    };
    match global {
        Some(g) => Some(ZclFrameCommand::Global(g)),
        None => None,
    }
}

/// How a command frame goes out: its direction, whether it is
/// manufacturer-specific and for which manufacturer, and its sequence
/// number where one is given.
pub struct EmitCommandFrameCfg {
    pub direction: ZclDirection,
    pub manufacturer_specific: bool,
    pub sequence_number: Option<u8>,
    pub manufacturer_code: Option<u16>,
}

/// The frame a command goes out in as `cfg` says, with no default response
/// asked for; without a sequence number of its own it takes
/// `transaction_number`.
pub fn zcl_command_frame(cmd: ZclFrameCommand, cfg: EmitCommandFrameCfg, transaction_number: u8) -> (r: ZclFrame)
    ensures
        r.header == (ZclHeader {
            frame_control: ZclFrameControl {
                frame_type: if cmd is Global {
                    ZclFrameType::Global
                } else {
                    ZclFrameType::Specific
                },
                manufacturer_specific: cfg.manufacturer_specific,
                direction: cfg.direction,
                disable_default_response: true,
            },
            manufacturer_code: cfg.manufacturer_code,
            sequence_number: match cfg.sequence_number {
                Some(n) => n,
                None => transaction_number,
            },
        }),
        r.command == cmd,
{
    let frame_type = match cmd {
        ZclFrameCommand::Global(_) => ZclFrameType::Global,
        ZclFrameCommand::Specific(_) => ZclFrameType::Specific,
    };
    let sequence_number = match cfg.sequence_number {
        Some(n) => n,
        None => transaction_number,
    };
    ZclFrame {
        header: ZclHeader {
            frame_control: ZclFrameControl {
                frame_type,
                manufacturer_specific: cfg.manufacturer_specific,
                direction: cfg.direction,
                disable_default_response: true,
            },
            manufacturer_code: cfg.manufacturer_code,
            sequence_number,
        },
        command: cmd,
    }
}

/// The direction of an answer: the other way.
pub open spec fn spec_reverse(d: ZclDirection) -> ZclDirection {
    match d {
        ZclDirection::ClientToServer => ZclDirection::ServerToClient,
        ZclDirection::ServerToClient => ZclDirection::ClientToServer,
    }
}

/// The frame that answers a received frame with the header `request`.
/// Without an answer from the cluster, a default response of success
/// (named by the request's sequence number, as this stack does) answers
/// a frame sent to this device alone that is no default response itself
/// and did not disable it; other frames get no answer. The answer goes the
/// other way, manufacturer-specific as the request was, under its sequence
/// number.
pub fn zcl_response(
    request: &ZclHeader,
    request_is_default_response: bool,
    dst_is_unicast: bool,
    response: Option<ZclFrameCommand>,
) -> (r: Option<ZclFrame>)
    ensures
        response is None && !(dst_is_unicast && !request_is_default_response
            && !request.frame_control.disable_default_response) ==> r is None,
        r matches Some(f) ==> f.header == (ZclHeader {
            frame_control: ZclFrameControl {
                frame_type: if f.command is Global {
                    ZclFrameType::Global
                } else {
                    ZclFrameType::Specific
                },
                manufacturer_specific: request.frame_control.manufacturer_specific,
                direction: spec_reverse(request.frame_control.direction),
                disable_default_response: true,
            },
            manufacturer_code: request.manufacturer_code,
            sequence_number: request.sequence_number,
        }),
        response matches Some(c) ==> r matches Some(f) && f.command == c,
        response is None && (dst_is_unicast && !request_is_default_response
            && !request.frame_control.disable_default_response) ==> (r matches Some(f) && f.command
            matches ZclFrameCommand::Global(GlobalZclCommand::DefaultResponse(d)) && d == (DefaultResponseCommand {
            command_identifier: request.sequence_number,
            status_code: ZclStatus::Success,
        })),
{
    let cmd = match response {
        Some(c) => c,
        None => {
            if dst_is_unicast && !request_is_default_response && !request.frame_control.disable_default_response {
                generate_default_response(request.sequence_number, ZclStatus::Success)
            } else {
                return None;
            }
        },
    };
    let direction = match request.frame_control.direction {
        ZclDirection::ClientToServer => ZclDirection::ServerToClient,
        ZclDirection::ServerToClient => ZclDirection::ClientToServer,
    };
    let cfg = EmitCommandFrameCfg {
        direction,
        manufacturer_specific: request.frame_control.manufacturer_specific,
        sequence_number: Some(request.sequence_number),
        manufacturer_code: request.manufacturer_code,
    };
    Some(zcl_command_frame(cmd, cfg, request.sequence_number))
}

} // verus!
