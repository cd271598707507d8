//! How the commands of every cluster are read and written: the command
//! identifier, then the command's fields; a command that lists records runs
//! to the end of the frame.
use vstd::prelude::*;

use crate::bytes::{spec_u16_at, spec_u8_at, u16_at, u16_le, u8_at, write_u16, write_u8, ParseError};
use crate::zcl::command::{
    AttributeReadReportingConfigurationRecord, AttributeRecord, AttributeReportingConfigurationRecord,
    AttributeSelector, AttributeStatusRecord, ConfigureReportingCommand, ConfigureReportingResponseCommand,
    DefaultResponseCommand, DiscoverAttributeRecord, DiscoverAttributesCommand, DiscoverAttributesExtendedResponseCommand,
    DiscoverAttributesResponseCommand, DiscoverCommandsReceivedCommand, DiscoverCommandsReceivedResponseCommand,
    ExtendedAttributeInformation, GlobalZclCommand, ReadAttributesCommand, ReadAttributesResponseCommand,
    ReadAttributesStatusRecord, ReadAttributesStructuredCommand, ReadReportingConfigurationCommand,
    ReadReportingConfigurationResponseCommand, ReportAttributesCommand, ReportingConfigurationAttributeStatus,
    ReportingRecordView, WriteAttributeRecord, WriteAttributeStatusRecord, WriteAttributeStructuredStatus,
    WriteAttributesCommand, WriteAttributesResponseCommand, WriteAttributesStructuredCommand,
    WriteAttributesStructuredResponseCommand,
};
use crate::zcl::records::{spec_status_at, status_at};
use crate::zcl::types::{ZclDataView, ZclStatus};
use crate::zcl::wire::{read_records, records_view, spec_read_records, spec_write_list, write_records, WireRecord};

verus! {

/// What a command of every cluster holds.
pub ghost enum GlobalCommandView {
    ReadAttributes(Seq<u16>),
    ReadAttributesResponse(Seq<(u16, ZclStatus, Option<ZclDataView>)>),
    WriteAttributes(Seq<(u16, ZclDataView)>),
    WriteAttributesUndivided(Seq<(u16, ZclDataView)>),
    WriteAttributesResponse(Seq<WriteAttributeStatusRecord>),
    WriteAttributesNoResponse(Seq<(u16, ZclDataView)>),
    ConfigureReporting(Seq<ReportingRecordView>),
    ConfigureReportingResponse(Seq<AttributeStatusRecord>),
    ReadReportingConfiguration(Seq<ReportingConfigurationAttributeStatus>),
    ReadReportingConfigurationResponse(Seq<(ZclStatus, ReportingRecordView)>),
    ReportAttributes(Seq<(u16, ZclDataView)>),
    DefaultResponse(DefaultResponseCommand),
    DiscoverAttributes(DiscoverAttributesCommand),
    DiscoverAttributesResponse(bool, Seq<DiscoverAttributeRecord>),
    ReadAttributesStructured(Seq<(u16, Seq<u16>)>),
    WriteAttributesStructured(Seq<((u16, Seq<u16>), ZclDataView)>),
    WriteAttributesStructuredResponse(Seq<(ZclStatus, (u16, Seq<u16>))>),
    DiscoverCommandsReceived(DiscoverCommandsReceivedCommand),
    DiscoverCommandsReceivedResponse(bool, Seq<u8>),
    DiscoverCommandsGenerated(DiscoverCommandsReceivedCommand),
    DiscoverCommandsGeneratedResponse(bool, Seq<u8>),
    DiscoverAttributesExtended(DiscoverAttributesCommand),
    DiscoverAttributesExtendedResponse(bool, Seq<ExtendedAttributeInformation>),
}

/// How many bytes from `off` to the end of `s`.
pub open spec fn rest_len(s: Seq<u8>, off: int) -> int {
    if 0 <= off <= s.len() {
        s.len() - off
    } else {
        0
    }
}

/// The records from `off` to the end and how many bytes they take.
pub open spec fn spec_list<T: WireRecord>(s: Seq<u8>, off: int) -> Result<(Seq<T::V>, int), ParseError> {
    match spec_read_records::<T>(s, off) {
        Ok(l) => Ok((l, rest_len(s, off))),
        Err(e) => Err(e),
    }
}

/// A flag byte (any byte but zero is set), then the records to the end.
pub open spec fn spec_flag_list<T: WireRecord>(s: Seq<u8>, off: int) -> Result<((bool, Seq<T::V>), int), ParseError> {
    match spec_u8_at(s, off) {
        Err(e) => Err(e),
        Ok(b) => match spec_read_records::<T>(s, off + 1) {
            Ok(l) => Ok(((b != 0, l), rest_len(s, off))),
            Err(e) => Err(e),
        },
    }
}

/// The bytes of a flag and records: a set flag is written as 0xff.
pub open spec fn flag_list_bytes<T: WireRecord>(flag: bool, l: Seq<T::V>) -> Option<Seq<u8>> {
    match spec_write_list::<T>(l) {
        Some(b) => Some(seq![if flag { 0xffu8 } else { 0u8 }] + b),
        None => None,
    }
}

/// A view built from what was read.
pub open spec fn wrap<A>(r: Result<(A, int), ParseError>, f: spec_fn(A) -> GlobalCommandView) -> Result<(GlobalCommandView, int), ParseError> {
    match r {
        Ok((a, n)) => Ok((f(a), n)),
        Err(e) => Err(e),
    }
}

/// The answer to a command: the command it answers, then the status.
pub open spec fn spec_default_response(s: Seq<u8>, off: int) -> Result<(DefaultResponseCommand, int), ParseError> {
    match spec_u8_at(s, off) {
        Err(e) => Err(e),
        Ok(command_identifier) => match spec_status_at(s, off + 1) {
            Err(e) => Err(e),
            Ok(status_code) => Ok((DefaultResponseCommand { command_identifier, status_code }, 2)),
        },
    }
}

/// The first attribute to list, then how many at most.
pub open spec fn spec_discover(s: Seq<u8>, off: int) -> Result<(DiscoverAttributesCommand, int), ParseError> {
    match spec_u16_at(s, off) {
        Err(e) => Err(e),
        Ok(start) => match spec_u8_at(s, off + 2) {
            Err(e) => Err(e),
            Ok(max) => Ok((DiscoverAttributesCommand { start_attribute_identifier: start, maximum_attribute_identifiers: max }, 3)),
        },
    }
}

/// The first command to list, then how many at most.
pub open spec fn spec_discover_commands(s: Seq<u8>, off: int) -> Result<(DiscoverCommandsReceivedCommand, int), ParseError> {
    match spec_u8_at(s, off) {
        Err(e) => Err(e),
        Ok(start) => match spec_u8_at(s, off + 1) {
            Err(e) => Err(e),
            Ok(max) => Ok((DiscoverCommandsReceivedCommand { start_command_identifier: start, maximum_command_identifiers: max }, 2)),
        },
    }
}

/// Reads the fields of the command with identifier `id` from `off`, and
/// how many bytes they take; an identifier of no such command is refused.
pub open spec fn spec_parse_global(s: Seq<u8>, off: int, id: u8) -> Result<(GlobalCommandView, int), ParseError> {
    match id {
        0x00u8 => wrap(spec_list::<u16>(s, off), |l: Seq<u16>| GlobalCommandView::ReadAttributes(l)),
        0x01u8 => wrap(spec_list::<ReadAttributesStatusRecord>(s, off), |l: Seq<(u16, ZclStatus, Option<ZclDataView>)>| GlobalCommandView::ReadAttributesResponse(l)),
        0x02u8 => wrap(spec_list::<AttributeRecord>(s, off), |l: Seq<(u16, ZclDataView)>| GlobalCommandView::WriteAttributes(l)),
        0x03u8 => wrap(spec_list::<AttributeRecord>(s, off), |l: Seq<(u16, ZclDataView)>| GlobalCommandView::WriteAttributesUndivided(l)),
        0x04u8 => wrap(spec_list::<WriteAttributeStatusRecord>(s, off), |l: Seq<WriteAttributeStatusRecord>| GlobalCommandView::WriteAttributesResponse(l)),
        0x05u8 => wrap(spec_list::<AttributeRecord>(s, off), |l: Seq<(u16, ZclDataView)>| GlobalCommandView::WriteAttributesNoResponse(l)),
        0x06u8 => wrap(spec_list::<AttributeReportingConfigurationRecord>(s, off), |l: Seq<ReportingRecordView>| GlobalCommandView::ConfigureReporting(l)),
        0x07u8 => wrap(spec_list::<AttributeStatusRecord>(s, off), |l: Seq<AttributeStatusRecord>| GlobalCommandView::ConfigureReportingResponse(l)),
        0x08u8 => wrap(spec_list::<ReportingConfigurationAttributeStatus>(s, off), |l: Seq<ReportingConfigurationAttributeStatus>| GlobalCommandView::ReadReportingConfiguration(l)),
        0x09u8 => wrap(spec_list::<AttributeReadReportingConfigurationRecord>(s, off), |l: Seq<(ZclStatus, ReportingRecordView)>| GlobalCommandView::ReadReportingConfigurationResponse(l)),
        0x0au8 => wrap(spec_list::<AttributeRecord>(s, off), |l: Seq<(u16, ZclDataView)>| GlobalCommandView::ReportAttributes(l)),
        0x0bu8 => wrap(spec_default_response(s, off), |c: DefaultResponseCommand| GlobalCommandView::DefaultResponse(c)),
        0x0cu8 => wrap(spec_discover(s, off), |c: DiscoverAttributesCommand| GlobalCommandView::DiscoverAttributes(c)),
        0x0du8 => wrap(spec_flag_list::<DiscoverAttributeRecord>(s, off), |p: (bool, Seq<DiscoverAttributeRecord>)| GlobalCommandView::DiscoverAttributesResponse(p.0, p.1)),
        0x0eu8 => wrap(spec_list::<AttributeSelector>(s, off), |l: Seq<(u16, Seq<u16>)>| GlobalCommandView::ReadAttributesStructured(l)),
        0x0fu8 => wrap(spec_list::<WriteAttributeRecord>(s, off), |l: Seq<((u16, Seq<u16>), ZclDataView)>| GlobalCommandView::WriteAttributesStructured(l)),
        0x10u8 => wrap(spec_list::<WriteAttributeStructuredStatus>(s, off), |l: Seq<(ZclStatus, (u16, Seq<u16>))>| GlobalCommandView::WriteAttributesStructuredResponse(l)),
        0x11u8 => wrap(spec_discover_commands(s, off), |c: DiscoverCommandsReceivedCommand| GlobalCommandView::DiscoverCommandsReceived(c)),
        0x12u8 => wrap(spec_flag_list::<u8>(s, off), |p: (bool, Seq<u8>)| GlobalCommandView::DiscoverCommandsReceivedResponse(p.0, p.1)),
        0x13u8 => wrap(spec_discover_commands(s, off), |c: DiscoverCommandsReceivedCommand| GlobalCommandView::DiscoverCommandsGenerated(c)),
        0x14u8 => wrap(spec_flag_list::<u8>(s, off), |p: (bool, Seq<u8>)| GlobalCommandView::DiscoverCommandsGeneratedResponse(p.0, p.1)),
        0x15u8 => wrap(spec_discover(s, off), |c: DiscoverAttributesCommand| GlobalCommandView::DiscoverAttributesExtended(c)),
        0x16u8 => wrap(spec_flag_list::<ExtendedAttributeInformation>(s, off), |p: (bool, Seq<ExtendedAttributeInformation>)| GlobalCommandView::DiscoverAttributesExtendedResponse(p.0, p.1)),
        _ => Err(ParseError::BadInput),
    }
}

/// The bytes of a command's fields; none where a value cannot be written.
pub open spec fn spec_global_bytes(v: GlobalCommandView) -> Option<Seq<u8>> {
    match v {
        GlobalCommandView::ReadAttributes(l) => spec_write_list::<u16>(l),
        GlobalCommandView::ReadAttributesResponse(l) => spec_write_list::<ReadAttributesStatusRecord>(l),
        GlobalCommandView::WriteAttributes(l) => spec_write_list::<AttributeRecord>(l),
        GlobalCommandView::WriteAttributesUndivided(l) => spec_write_list::<AttributeRecord>(l),
        GlobalCommandView::WriteAttributesResponse(l) => spec_write_list::<WriteAttributeStatusRecord>(l),
        GlobalCommandView::WriteAttributesNoResponse(l) => spec_write_list::<AttributeRecord>(l),
        GlobalCommandView::ConfigureReporting(l) => spec_write_list::<AttributeReportingConfigurationRecord>(l),
        GlobalCommandView::ConfigureReportingResponse(l) => spec_write_list::<AttributeStatusRecord>(l),
        GlobalCommandView::ReadReportingConfiguration(l) => spec_write_list::<ReportingConfigurationAttributeStatus>(l),
        GlobalCommandView::ReadReportingConfigurationResponse(l) => spec_write_list::<AttributeReadReportingConfigurationRecord>(l),
        GlobalCommandView::ReportAttributes(l) => spec_write_list::<AttributeRecord>(l),
        GlobalCommandView::DefaultResponse(c) => Some(seq![c.command_identifier, c.status_code.spec_code()]),
        GlobalCommandView::DiscoverAttributes(c) => Some(u16_le(c.start_attribute_identifier).push(c.maximum_attribute_identifiers)),
        GlobalCommandView::DiscoverAttributesResponse(b, l) => flag_list_bytes::<DiscoverAttributeRecord>(b, l),
        GlobalCommandView::ReadAttributesStructured(l) => spec_write_list::<AttributeSelector>(l),
        GlobalCommandView::WriteAttributesStructured(l) => spec_write_list::<WriteAttributeRecord>(l),
        GlobalCommandView::WriteAttributesStructuredResponse(l) => spec_write_list::<WriteAttributeStructuredStatus>(l),
        GlobalCommandView::DiscoverCommandsReceived(c) => Some(seq![c.start_command_identifier, c.maximum_command_identifiers]),
        GlobalCommandView::DiscoverCommandsReceivedResponse(b, l) => flag_list_bytes::<u8>(b, l),
        GlobalCommandView::DiscoverCommandsGenerated(c) => Some(seq![c.start_command_identifier, c.maximum_command_identifiers]),
        GlobalCommandView::DiscoverCommandsGeneratedResponse(b, l) => flag_list_bytes::<u8>(b, l),
        GlobalCommandView::DiscoverAttributesExtended(c) => Some(u16_le(c.start_attribute_identifier).push(c.maximum_attribute_identifiers)),
        GlobalCommandView::DiscoverAttributesExtendedResponse(b, l) => flag_list_bytes::<ExtendedAttributeInformation>(b, l),
    }
}

impl GlobalZclCommand {
    pub open spec fn spec_view(&self) -> GlobalCommandView {
        match self {
            GlobalZclCommand::ReadAttributes(c) => GlobalCommandView::ReadAttributes(records_view(&c.attributes)),
            GlobalZclCommand::ReadAttributesResponse(c) => GlobalCommandView::ReadAttributesResponse(records_view(&c.attribute_statuses)),
            GlobalZclCommand::WriteAttributes(c) => GlobalCommandView::WriteAttributes(records_view(&c.attributes)),
            GlobalZclCommand::WriteAttributesUndivided(c) => GlobalCommandView::WriteAttributesUndivided(records_view(&c.attributes)),
            GlobalZclCommand::WriteAttributesResponse(c) => GlobalCommandView::WriteAttributesResponse(records_view(&c.attributes)),
            GlobalZclCommand::WriteAttributesNoResponse(c) => GlobalCommandView::WriteAttributesNoResponse(records_view(&c.attributes)),
            GlobalZclCommand::ConfigureReporting(c) => GlobalCommandView::ConfigureReporting(records_view(&c.configuration_records)),
            GlobalZclCommand::ConfigureReportingResponse(c) => GlobalCommandView::ConfigureReportingResponse(records_view(&c.configuration_records)),
            GlobalZclCommand::ReadReportingConfiguration(c) => GlobalCommandView::ReadReportingConfiguration(records_view(&c.attributes)),
            GlobalZclCommand::ReadReportingConfigurationResponse(c) => GlobalCommandView::ReadReportingConfigurationResponse(records_view(&c.attributes)),
            GlobalZclCommand::ReportAttributes(c) => GlobalCommandView::ReportAttributes(records_view(&c.attributes)),
            GlobalZclCommand::DefaultResponse(c) => GlobalCommandView::DefaultResponse(*c),
            GlobalZclCommand::DiscoverAttributes(c) => GlobalCommandView::DiscoverAttributes(*c),
            GlobalZclCommand::DiscoverAttributesResponse(c) => GlobalCommandView::DiscoverAttributesResponse(c.discovery_complete, records_view(&c.attributes)),
            GlobalZclCommand::ReadAttributesStructured(c) => GlobalCommandView::ReadAttributesStructured(records_view(&c.attribute_selectors)),
            GlobalZclCommand::WriteAttributesStructured(c) => GlobalCommandView::WriteAttributesStructured(records_view(&c.attributes)),
            GlobalZclCommand::WriteAttributesStructuredResponse(c) => GlobalCommandView::WriteAttributesStructuredResponse(records_view(&c.attributes)),
            GlobalZclCommand::DiscoverCommandsReceived(c) => GlobalCommandView::DiscoverCommandsReceived(*c),
            GlobalZclCommand::DiscoverCommandsReceivedResponse(c) => GlobalCommandView::DiscoverCommandsReceivedResponse(c.discovery_complete, records_view(&c.identifiers)),
            GlobalZclCommand::DiscoverCommandsGenerated(c) => GlobalCommandView::DiscoverCommandsGenerated(*c),
            GlobalZclCommand::DiscoverCommandsGeneratedResponse(c) => GlobalCommandView::DiscoverCommandsGeneratedResponse(c.discovery_complete, records_view(&c.identifiers)),
            GlobalZclCommand::DiscoverAttributesExtended(c) => GlobalCommandView::DiscoverAttributesExtended(*c),
            GlobalZclCommand::DiscoverAttributesExtendedResponse(c) => GlobalCommandView::DiscoverAttributesExtendedResponse(c.discovery_complete, records_view(&c.attributes)),
        }
    }

    /// The command's bytes: its identifier, then its fields.
    pub open spec fn spec_bytes(&self) -> Option<Seq<u8>> {
        match spec_global_bytes(self.spec_view()) {
            Some(b) => Some(seq![self.spec_identifier()] + b),
            None => None,
        }
    }

    /// Reads the fields of the command with identifier `id` from `off` (see
    /// [`spec_parse_global`]).
    pub fn parse(bytes: &[u8], off: usize, id: u8) -> (r: Result<(GlobalZclCommand, usize), ParseError>)
        ensures
            match r {
                Ok((c, n)) => spec_parse_global(bytes@, off as int, id) == Ok::<(GlobalCommandView, int), ParseError>(
                    (c.spec_view(), n as int),
                ) && c.spec_identifier() == id && (off <= bytes@.len() ==> off + n <= bytes@.len()),
                Err(e) => spec_parse_global(bytes@, off as int, id) == Err::<(GlobalCommandView, int), ParseError>(e),
            },
    {
        let blen = bytes.len();
        let rest: usize = if off <= blen {
            blen - off
        } else {
            0
        };
        match id {
            0x00 => match read_records::<u16>(bytes, off) {
                Ok(v) => Ok((GlobalZclCommand::ReadAttributes(ReadAttributesCommand { attributes: v }), rest)),
                Err(e) => Err(e),
            },
            0x01 => match read_records::<ReadAttributesStatusRecord>(bytes, off) {
                Ok(v) => Ok((GlobalZclCommand::ReadAttributesResponse(ReadAttributesResponseCommand { attribute_statuses: v }), rest)),
                Err(e) => Err(e),
            },
            0x02 => match read_records::<AttributeRecord>(bytes, off) {
                Ok(v) => Ok((GlobalZclCommand::WriteAttributes(WriteAttributesCommand { attributes: v }), rest)),
                Err(e) => Err(e),
            },
            0x03 => match read_records::<AttributeRecord>(bytes, off) {
                Ok(v) => Ok((GlobalZclCommand::WriteAttributesUndivided(WriteAttributesCommand { attributes: v }), rest)),
                Err(e) => Err(e),
            },
            0x04 => match read_records::<WriteAttributeStatusRecord>(bytes, off) {
                Ok(v) => Ok((GlobalZclCommand::WriteAttributesResponse(WriteAttributesResponseCommand { attributes: v }), rest)),
                Err(e) => Err(e),
            },
            0x05 => match read_records::<AttributeRecord>(bytes, off) {
                Ok(v) => Ok((GlobalZclCommand::WriteAttributesNoResponse(WriteAttributesCommand { attributes: v }), rest)),
                Err(e) => Err(e),
            },
            0x06 => match read_records::<AttributeReportingConfigurationRecord>(bytes, off) {
                Ok(v) => Ok((GlobalZclCommand::ConfigureReporting(ConfigureReportingCommand { configuration_records: v }), rest)),
                Err(e) => Err(e),
            },
            0x07 => match read_records::<AttributeStatusRecord>(bytes, off) {
                Ok(v) => Ok((GlobalZclCommand::ConfigureReportingResponse(ConfigureReportingResponseCommand { configuration_records: v }), rest)),
                Err(e) => Err(e),
            },
            0x08 => match read_records::<ReportingConfigurationAttributeStatus>(bytes, off) {
                Ok(v) => Ok((GlobalZclCommand::ReadReportingConfiguration(ReadReportingConfigurationCommand { attributes: v }), rest)),
                Err(e) => Err(e),
            },
            0x09 => match read_records::<AttributeReadReportingConfigurationRecord>(bytes, off) {
                Ok(v) => Ok((GlobalZclCommand::ReadReportingConfigurationResponse(ReadReportingConfigurationResponseCommand { attributes: v }), rest)),
                Err(e) => Err(e),
            },
            0x0a => match read_records::<AttributeRecord>(bytes, off) {
                Ok(v) => Ok((GlobalZclCommand::ReportAttributes(ReportAttributesCommand { attributes: v }), rest)),
                Err(e) => Err(e),
            },
            0x0b => match default_response_at(bytes, off) {
                Ok(c) => Ok((GlobalZclCommand::DefaultResponse(c), 2)),
                Err(e) => Err(e),
            },
            0x0c => match discover_at(bytes, off) {
                Ok(c) => Ok((GlobalZclCommand::DiscoverAttributes(c), 3)),
                Err(e) => Err(e),
            },
            0x0d => {
                let b = match u8_at(bytes, off) {
                    Ok(b) => b,
                    Err(e) => return Err(e),
                };
                match read_records::<DiscoverAttributeRecord>(bytes, off + 1) {
                    Ok(v) => Ok((GlobalZclCommand::DiscoverAttributesResponse(DiscoverAttributesResponseCommand { discovery_complete: b != 0, attributes: v }), rest)),
                    Err(e) => Err(e),
                }
            },
            0x0e => match read_records::<AttributeSelector>(bytes, off) {
                Ok(v) => Ok((GlobalZclCommand::ReadAttributesStructured(ReadAttributesStructuredCommand { attribute_selectors: v }), rest)),
                Err(e) => Err(e),
            },
            0x0f => match read_records::<WriteAttributeRecord>(bytes, off) {
                Ok(v) => Ok((GlobalZclCommand::WriteAttributesStructured(WriteAttributesStructuredCommand { attributes: v }), rest)),
                Err(e) => Err(e),
            },
            0x10 => match read_records::<WriteAttributeStructuredStatus>(bytes, off) {
                Ok(v) => Ok((GlobalZclCommand::WriteAttributesStructuredResponse(WriteAttributesStructuredResponseCommand { attributes: v }), rest)),
                Err(e) => Err(e),
            },
            0x11 => match discover_commands_at(bytes, off) {
                Ok(c) => Ok((GlobalZclCommand::DiscoverCommandsReceived(c), 2)),
                Err(e) => Err(e),
            },
            0x12 => {
                let b = match u8_at(bytes, off) {
                    Ok(b) => b,
                    Err(e) => return Err(e),
                };
                match read_records::<u8>(bytes, off + 1) {
                    Ok(v) => Ok((GlobalZclCommand::DiscoverCommandsReceivedResponse(DiscoverCommandsReceivedResponseCommand { discovery_complete: b != 0, identifiers: v }), rest)),
                    Err(e) => Err(e),
                }
            },
            0x13 => match discover_commands_at(bytes, off) {
                Ok(c) => Ok((GlobalZclCommand::DiscoverCommandsGenerated(c), 2)),
                Err(e) => Err(e),
            },
            0x14 => {
                let b = match u8_at(bytes, off) {
                    Ok(b) => b,
                    Err(e) => return Err(e),
                };
                match read_records::<u8>(bytes, off + 1) {
                    Ok(v) => Ok((GlobalZclCommand::DiscoverCommandsGeneratedResponse(DiscoverCommandsReceivedResponseCommand { discovery_complete: b != 0, identifiers: v }), rest)),
                    Err(e) => Err(e),
                }
            },
            0x15 => match discover_at(bytes, off) {
                Ok(c) => Ok((GlobalZclCommand::DiscoverAttributesExtended(c), 3)),
                Err(e) => Err(e),
            },
            0x16 => {
                let b = match u8_at(bytes, off) {
                    Ok(b) => b,
                    Err(e) => return Err(e),
                };
                match read_records::<ExtendedAttributeInformation>(bytes, off + 1) {
                    Ok(v) => Ok((GlobalZclCommand::DiscoverAttributesExtendedResponse(DiscoverAttributesExtendedResponseCommand { discovery_complete: b != 0, attributes: v }), rest)),
                    Err(e) => Err(e),
                }
            },
            _ => Err(ParseError::BadInput),
        }
    }

    /// Appends the command's identifier and fields (see [`spec_global_bytes`]);
    /// a value that cannot be written is refused.
    pub fn serialize(&self, out: &mut std::vec::Vec<u8>) -> (r: Result<(), ParseError>)
        ensures
            r is Ok <==> self.spec_bytes() is Some,
            r is Ok ==> final(out)@ == old(out)@ + self.spec_bytes()->Some_0,
    {
        let ghost start = out@;
        write_u8(out, self.identifier());
        let ghost head = out@;
        let w = match self {
            GlobalZclCommand::ReadAttributes(c) => write_records(&c.attributes, out),
            GlobalZclCommand::ReadAttributesResponse(c) => write_records(&c.attribute_statuses, out),
            GlobalZclCommand::WriteAttributes(c) => write_records(&c.attributes, out),
            GlobalZclCommand::WriteAttributesUndivided(c) => write_records(&c.attributes, out),
            GlobalZclCommand::WriteAttributesResponse(c) => write_records(&c.attributes, out),
            GlobalZclCommand::WriteAttributesNoResponse(c) => write_records(&c.attributes, out),
            GlobalZclCommand::ConfigureReporting(c) => write_records(&c.configuration_records, out),
            GlobalZclCommand::ConfigureReportingResponse(c) => write_records(&c.configuration_records, out),
            GlobalZclCommand::ReadReportingConfiguration(c) => write_records(&c.attributes, out),
            GlobalZclCommand::ReadReportingConfigurationResponse(c) => write_records(&c.attributes, out),
            GlobalZclCommand::ReportAttributes(c) => write_records(&c.attributes, out),
            GlobalZclCommand::DefaultResponse(c) => {
                write_u8(out, c.command_identifier);
                write_u8(out, c.status_code.code());
                Ok(())
            },
            GlobalZclCommand::DiscoverAttributes(c) => {
                write_u16(out, c.start_attribute_identifier);
                write_u8(out, c.maximum_attribute_identifiers);
                Ok(())
            },
            GlobalZclCommand::DiscoverAttributesResponse(c) => write_flag_list(c.discovery_complete, &c.attributes, out),
            GlobalZclCommand::ReadAttributesStructured(c) => write_records(&c.attribute_selectors, out),
            GlobalZclCommand::WriteAttributesStructured(c) => write_records(&c.attributes, out),
            GlobalZclCommand::WriteAttributesStructuredResponse(c) => write_records(&c.attributes, out),
            GlobalZclCommand::DiscoverCommandsReceived(c) => {
                write_u8(out, c.start_command_identifier);
                write_u8(out, c.maximum_command_identifiers);
                Ok(())
            },
            GlobalZclCommand::DiscoverCommandsReceivedResponse(c) => write_flag_list(c.discovery_complete, &c.identifiers, out),
            GlobalZclCommand::DiscoverCommandsGenerated(c) => {
                write_u8(out, c.start_command_identifier);
                write_u8(out, c.maximum_command_identifiers);
                Ok(())
            },
            GlobalZclCommand::DiscoverCommandsGeneratedResponse(c) => write_flag_list(c.discovery_complete, &c.identifiers, out),
            GlobalZclCommand::DiscoverAttributesExtended(c) => {
                write_u16(out, c.start_attribute_identifier);
                write_u8(out, c.maximum_attribute_identifiers);
                Ok(())
            },
            GlobalZclCommand::DiscoverAttributesExtendedResponse(c) => write_flag_list(c.discovery_complete, &c.attributes, out),
        };
        proof {
            if w is Ok {
                assert(out@ =~= start + self.spec_bytes()->Some_0);
            }
        }
        w
    }
}

fn default_response_at(bytes: &[u8], off: usize) -> (r: Result<DefaultResponseCommand, ParseError>)
    ensures
        match r {
            Ok(c) => spec_default_response(bytes@, off as int) == Ok::<(DefaultResponseCommand, int), ParseError>((c, 2)),
            Err(e) => spec_default_response(bytes@, off as int) == Err::<(DefaultResponseCommand, int), ParseError>(e),
        },
{
    let command_identifier = match u8_at(bytes, off) {
        Ok(v) => v,
        Err(e) => return Err(e),
    };
    match status_at(bytes, off + 1) {
        Ok(status_code) => Ok(DefaultResponseCommand { command_identifier, status_code }),
        Err(e) => Err(e),
    }
}

fn discover_at(bytes: &[u8], off: usize) -> (r: Result<DiscoverAttributesCommand, ParseError>)
    ensures
        match r {
            Ok(c) => spec_discover(bytes@, off as int) == Ok::<(DiscoverAttributesCommand, int), ParseError>((c, 3)),
            Err(e) => spec_discover(bytes@, off as int) == Err::<(DiscoverAttributesCommand, int), ParseError>(e),
        },
{
    let start = match u16_at(bytes, off) {
        Ok(v) => v,
        Err(e) => return Err(e),
    };
    match u8_at(bytes, off + 2) {
        Ok(max) => Ok(DiscoverAttributesCommand { start_attribute_identifier: start, maximum_attribute_identifiers: max }),
        Err(e) => Err(e),
    }
}

fn discover_commands_at(bytes: &[u8], off: usize) -> (r: Result<DiscoverCommandsReceivedCommand, ParseError>)
    ensures
        match r {
            Ok(c) => spec_discover_commands(bytes@, off as int) == Ok::<(DiscoverCommandsReceivedCommand, int), ParseError>((c, 2)),
            Err(e) => spec_discover_commands(bytes@, off as int) == Err::<(DiscoverCommandsReceivedCommand, int), ParseError>(e),
        },
{
    let start = match u8_at(bytes, off) {
        Ok(v) => v,
        Err(e) => return Err(e),
    };
    match u8_at(bytes, off + 1) {
        Ok(max) => Ok(DiscoverCommandsReceivedCommand { start_command_identifier: start, maximum_command_identifiers: max }),
        Err(e) => Err(e),
    }
}

/// Appends a flag (0xff where set) and then the records.
fn write_flag_list<T: WireRecord>(flag: bool, v: &crate::collections::Vec<T, 64>, out: &mut std::vec::Vec<u8>) -> (r: Result<(), ParseError>)
    ensures
        r is Ok <==> flag_list_bytes::<T>(flag, records_view(v)) is Some,
        r is Ok ==> final(out)@ == old(out)@ + flag_list_bytes::<T>(flag, records_view(v))->Some_0,
{
    let ghost start = out@;
    if flag {
        write_u8(out, 0xff);
    } else {
        write_u8(out, 0);
    }
    let w = write_records(v, out);
    proof {
        if w is Ok {
            assert(out@ =~= start + flag_list_bytes::<T>(flag, records_view(v))->Some_0);
        }
    }
    w
}

} // verus!
