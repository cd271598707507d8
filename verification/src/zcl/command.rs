//! The commands that every cluster understands.
use vstd::prelude::*;

use crate::bytes::{spec_u16_at, spec_u8_at, u16_at, u8_at, write_le, le_bytes, ParseError};
use crate::collections::Vec;
use crate::zcl::types::{ZclData, ZclDataView, ZclStatus};

verus! {

/// The most items a command lists.
pub const MAX_COMMAND_ITEMS: usize = 64;

/// An attribute and a value of it.
pub struct AttributeRecord {
    pub identifier: u16,
    pub data: ZclData,
}

/// Which attributes to read.
pub struct ReadAttributesCommand {
    pub attributes: Vec<u16, MAX_COMMAND_ITEMS>,
}

/// What reading an attribute gave: its value where the status is success.
pub struct ReadAttributesStatusRecord {
    pub identifier: u16,
    pub status: ZclStatus,
    pub data: Option<ZclData>,
}

/// The answer to a read.
pub struct ReadAttributesResponseCommand {
    pub attribute_statuses: Vec<ReadAttributesStatusRecord, MAX_COMMAND_ITEMS>,
}

/// Which attributes to write, with their values.
pub struct WriteAttributesCommand {
    pub attributes: Vec<AttributeRecord, MAX_COMMAND_ITEMS>,
}

/// What writing an attribute gave.
#[derive(Clone, Copy, Debug, PartialEq, Eq, Structural)]
pub struct WriteAttributeStatusRecord {
    pub status: ZclStatus,
    pub identifier: u16,
}

/// The answer to a write.
pub struct WriteAttributesResponseCommand {
    pub attributes: Vec<WriteAttributeStatusRecord, MAX_COMMAND_ITEMS>,
}

/// Whether a reporting configuration is of reports sent or received.
#[derive(Clone, Copy, Debug, PartialEq, Eq, Structural)]
pub enum AttributeReportingConfigurationDirection {
    Report,
    Receive,
}

impl Default for AttributeReportingConfigurationDirection {
    fn default() -> (r: Self)
        ensures
            r == AttributeReportingConfigurationDirection::Report,
    {
        AttributeReportingConfigurationDirection::Report
    }
}

/// How an attribute is to be reported: for reports sent, the data type and
/// the reporting intervals; for reports received, the timeout.
pub struct AttributeReportingConfigurationRecord {
    pub direction: AttributeReportingConfigurationDirection,
    pub identifier: u16,
    pub data_type: Option<u8>,
    pub minimum_reporting_interval: Option<u16>,
    pub maximum_reporting_interval: Option<u16>,
    pub reportable_change: Option<ZclData>,
    pub timeout_period: Option<u16>,
}

/// What a reporting configuration record holds.
pub ghost struct ReportingRecordView {
    pub direction: AttributeReportingConfigurationDirection,
    pub identifier: u16,
    pub data_type: Option<u8>,
    pub minimum_reporting_interval: Option<u16>,
    pub maximum_reporting_interval: Option<u16>,
    pub reportable_change: Option<ZclDataView>,
    pub timeout_period: Option<u16>,
}

pub open spec fn direction_code(d: AttributeReportingConfigurationDirection) -> u8 {
    match d {
        AttributeReportingConfigurationDirection::Report => 0,
        AttributeReportingConfigurationDirection::Receive => 1,
    }
}

/// The direction a byte stands for; other bytes are refused.
pub open spec fn spec_direction(b: u8) -> Result<AttributeReportingConfigurationDirection, ParseError> {
    if b == 0 {
        Ok(AttributeReportingConfigurationDirection::Report)
    } else if b == 1 {
        Ok(AttributeReportingConfigurationDirection::Receive)
    } else {
        Err(ParseError::BadInput)
    }
}

fn direction_from(b: u8) -> (r: Result<AttributeReportingConfigurationDirection, ParseError>)
    ensures
        r == spec_direction(b),
{
    if b == 0 {
        Ok(AttributeReportingConfigurationDirection::Report)
    } else if b == 1 {
        Ok(AttributeReportingConfigurationDirection::Receive)
    } else {
        Err(ParseError::BadInput)
    }
}

fn direction_to(d: AttributeReportingConfigurationDirection) -> (r: u8)
    ensures
        r == direction_code(d),
{
    match d {
        AttributeReportingConfigurationDirection::Report => 0,
        AttributeReportingConfigurationDirection::Receive => 1,
    }
}

/// The bytes of an optional field: nothing where it is not given.
pub open spec fn opt_u16_bytes(v: Option<u16>) -> Seq<u8> {
    match v {
        Some(x) => le_bytes(x as nat, 2),
        None => Seq::empty(),
    }
}

pub open spec fn opt_u8_bytes(v: Option<u8>) -> Seq<u8> {
    match v {
        Some(x) => seq![x],
        None => Seq::empty(),
    }
}

impl AttributeReportingConfigurationRecord {
    pub open spec fn spec_view(&self) -> ReportingRecordView {
        ReportingRecordView {
            direction: self.direction,
            identifier: self.identifier,
            data_type: self.data_type,
            minimum_reporting_interval: self.minimum_reporting_interval,
            maximum_reporting_interval: self.maximum_reporting_interval,
            reportable_change: match self.reportable_change {
                Some(d) => Some(d.spec_view()),
                None => None,
            },
            timeout_period: self.timeout_period,
        }
    }

    /// Reads a record at `off`: the direction and the attribute, then for
    /// reports sent the data type and the two intervals, for reports
    /// received the timeout. The reportable change is not read.
    pub open spec fn spec_parse(s: Seq<u8>, off: int) -> Result<(ReportingRecordView, int), ParseError> {
        match spec_u8_at(s, off) {
            Err(e) => Err(e),
            Ok(b) => match spec_direction(b) {
                Err(e) => Err(e),
                Ok(direction) => match spec_u16_at(s, off + 1) {
                    Err(e) => Err(e),
                    Ok(identifier) => if direction == AttributeReportingConfigurationDirection::Report {
                        match (spec_u8_at(s, off + 3), spec_u16_at(s, off + 4), spec_u16_at(s, off + 6)) {
                            (Ok(t), Ok(min), Ok(max)) => Ok(
                                (
                                    ReportingRecordView {
                                        direction,
                                        identifier,
                                        data_type: Some(t),
                                        minimum_reporting_interval: Some(min),
                                        maximum_reporting_interval: Some(max),
                                        reportable_change: None,
                                        timeout_period: None,
                                    },
                                    8,
                                ),
                            ),
                            _ => Err(ParseError::Incomplete),
                        }
                    } else {
                        match spec_u16_at(s, off + 3) {
                            Ok(t) => Ok(
                                (
                                    ReportingRecordView {
                                        direction,
                                        identifier,
                                        data_type: None,
                                        minimum_reporting_interval: None,
                                        maximum_reporting_interval: None,
                                        reportable_change: None,
                                        timeout_period: Some(t),
                                    },
                                    5,
                                ),
                            ),
                            Err(e) => Err(e),
                        }
                    },
                },
            },
        }
    }

    /// The bytes of a record: the direction, the attribute, then each field
    /// that is given, in order (the reportable change with its data type).
    pub open spec fn spec_bytes(self) -> Option<Seq<u8>> {
        let head = seq![direction_code(self.direction)] + le_bytes(self.identifier as nat, 2)
            + opt_u8_bytes(self.data_type) + opt_u16_bytes(self.minimum_reporting_interval)
            + opt_u16_bytes(self.maximum_reporting_interval);
        match self.reportable_change {
            Some(d) => match d.spec_view().spec_bytes(0) {
                Some(b) => Some(head + b + opt_u16_bytes(self.timeout_period)),
                None => None,
            },
            None => Some(head + opt_u16_bytes(self.timeout_period)),
        }
    }

    pub fn parse(bytes: &[u8], off: usize) -> (r: Result<(AttributeReportingConfigurationRecord, usize), ParseError>)
        ensures
            match r {
                Ok((rec, n)) => AttributeReportingConfigurationRecord::spec_parse(bytes@, off as int)
                    == Ok::<(ReportingRecordView, int), ParseError>((rec.spec_view(), n as int)),
                Err(e) => AttributeReportingConfigurationRecord::spec_parse(bytes@, off as int)
                    == Err::<(ReportingRecordView, int), ParseError>(e),
            },
    {
        let blen = bytes.len();
        let b = match u8_at(bytes, off) {
            Ok(b) => b,
            Err(e) => return Err(e),
        };
        let direction = match direction_from(b) {
            Ok(d) => d,
            Err(e) => return Err(e),
        };
        if blen - off < 3 {
            return Err(ParseError::Incomplete);
        }
        let identifier = match u16_at(bytes, off + 1) {
            Ok(i) => i,
            Err(e) => return Err(e),
        };
        match direction {
            AttributeReportingConfigurationDirection::Report => {
                if blen - off < 8 {
                    return Err(ParseError::Incomplete);
                }
                let t = u8_at(bytes, off + 3);
                let min = u16_at(bytes, off + 4);
                let max = u16_at(bytes, off + 6);
                match (t, min, max) {
                    (Ok(t), Ok(min), Ok(max)) => Ok(
                        (
                            AttributeReportingConfigurationRecord {
                                direction,
                                identifier,
                                data_type: Some(t),
                                minimum_reporting_interval: Some(min),
                                maximum_reporting_interval: Some(max),
                                reportable_change: None,
                                timeout_period: None,
                            },
                            8,
                        ),
                    ),
                    _ => Err(ParseError::Incomplete),
                }
            },
            AttributeReportingConfigurationDirection::Receive => {
                if blen - off < 5 {
                    return Err(ParseError::Incomplete);
                }
                match u16_at(bytes, off + 3) {
                    Ok(t) => Ok(
                        (
                            AttributeReportingConfigurationRecord {
                                direction,
                                identifier,
                                data_type: None,
                                minimum_reporting_interval: None,
                                maximum_reporting_interval: None,
                                reportable_change: None,
                                timeout_period: Some(t),
                            },
                            5,
                        ),
                    ),
                    Err(e) => Err(e),
                }
            },
        }
    }

    /// Appends the record's bytes; a reportable change nested too deep is
    /// refused, after what came before it.
    pub fn serialize(&self, out: &mut std::vec::Vec<u8>) -> (r: Result<(), ParseError>)
        ensures
            r is Ok <==> self.spec_bytes() is Some,
            r is Ok ==> final(out)@ == old(out)@ + self.spec_bytes()->Some_0,
    {
        let ghost start = out@;
        self.serialize_head(out);
        let ghost head = out@;
        if let Some(change) = &self.reportable_change {
            match change.serialize(out, 0) {
                Ok(()) => {},
                Err(e) => return Err(e),
            }
        }
        let ghost mid = out@;
        if let Some(t) = self.timeout_period {
            write_le(out, t as u64, 2);
        }
        proof {
            assert(out@ == mid + opt_u16_bytes(self.timeout_period));
            assert(out@ =~= start + self.spec_bytes()->Some_0);
        }
        Ok(())
    }

    /// Appends the direction, the attribute, and the data type and
    /// intervals where given.
    fn serialize_head(&self, out: &mut std::vec::Vec<u8>)
        ensures
            final(out)@ == old(out)@ + (seq![direction_code(self.direction)] + le_bytes(self.identifier as nat, 2)
                + opt_u8_bytes(self.data_type) + opt_u16_bytes(self.minimum_reporting_interval)
                + opt_u16_bytes(self.maximum_reporting_interval)),
    {
        let ghost start = out@;
        out.push(direction_to(self.direction));
        write_le(out, self.identifier as u64, 2);
        let ghost a = out@;
        if let Some(t) = self.data_type {
            out.push(t);
        }
        let ghost b = out@;
        assert(b =~= a + opt_u8_bytes(self.data_type));
        if let Some(min) = self.minimum_reporting_interval {
            write_le(out, min as u64, 2);
        }
        let ghost c = out@;
        assert(c == b + opt_u16_bytes(self.minimum_reporting_interval));
        if let Some(max) = self.maximum_reporting_interval {
            write_le(out, max as u64, 2);
        }
        assert(out@ == c + opt_u16_bytes(self.maximum_reporting_interval));
        assert(out@ =~= start + (seq![direction_code(self.direction)] + le_bytes(self.identifier as nat, 2)
            + opt_u8_bytes(self.data_type) + opt_u16_bytes(self.minimum_reporting_interval)
            + opt_u16_bytes(self.maximum_reporting_interval)));
    }
}

/// What configuring an attribute's reporting gave.
#[derive(Clone, Copy, Debug, PartialEq, Eq, Structural)]
pub struct AttributeStatusRecord {
    pub status: ZclStatus,
    pub direction: AttributeReportingConfigurationDirection,
    pub identifier: u16,
}

/// How to report attributes.
pub struct ConfigureReportingCommand {
    pub configuration_records: Vec<AttributeReportingConfigurationRecord, MAX_COMMAND_ITEMS>,
}

/// The answer to a reporting configuration.
pub struct ConfigureReportingResponseCommand {
    pub configuration_records: Vec<AttributeStatusRecord, MAX_COMMAND_ITEMS>,
}

/// An attribute whose reporting configuration is asked for.
#[derive(Clone, Copy, Debug, PartialEq, Eq, Structural)]
pub struct ReportingConfigurationAttributeStatus {
    pub direction: AttributeReportingConfigurationDirection,
    pub identifier: u16,
}

/// Which reporting configurations to read.
pub struct ReadReportingConfigurationCommand {
    pub attributes: Vec<ReportingConfigurationAttributeStatus, MAX_COMMAND_ITEMS>,
}

/// An attribute's reporting configuration, as read.
pub struct AttributeReadReportingConfigurationRecord {
    pub status: ZclStatus,
    pub direction: AttributeReportingConfigurationDirection,
    pub identifier: u16,
    pub data_type: Option<u8>,
    pub minimum_reporting_interval: Option<u16>,
    pub maximum_reporting_interval: Option<u16>,
    pub reportable_change: Option<ZclData>,
    pub timeout_period: Option<u16>,
}

/// The answer to a reading of reporting configurations.
pub struct ReadReportingConfigurationResponseCommand {
    pub attributes: Vec<AttributeReadReportingConfigurationRecord, MAX_COMMAND_ITEMS>,
}

/// A report of attribute values.
pub struct ReportAttributesCommand {
    pub attributes: Vec<AttributeRecord, MAX_COMMAND_ITEMS>,
}

/// The answer to a command that has no answer of its own.
#[derive(Clone, Copy, Debug, PartialEq, Eq, Structural)]
pub struct DefaultResponseCommand {
    pub command_identifier: u8,
    pub status_code: ZclStatus,
}

/// Which attributes to list: from an identifier on, at most so many.
#[derive(Clone, Copy, Debug, PartialEq, Eq, Structural)]
pub struct DiscoverAttributesCommand {
    pub start_attribute_identifier: u16,
    pub maximum_attribute_identifiers: u8,
}

/// An attribute and its data type.
#[derive(Clone, Copy, Debug, PartialEq, Eq, Structural)]
pub struct DiscoverAttributeRecord {
    pub identifier: u16,
    pub data_type: u8,
}

/// The attributes listed.
pub struct DiscoverAttributesResponseCommand {
    pub discovery_complete: bool,
    pub attributes: Vec<DiscoverAttributeRecord, MAX_COMMAND_ITEMS>,
}

/// An attribute and the indices into it (at most 15).
pub struct AttributeSelector {
    pub identifier: u16,
    pub indices: Vec<u16, 15>,
}

/// The indices that a selector lists after its header (see
/// [`AttributeSelector::spec_parse`]).
pub open spec fn spec_indices(s: Seq<u8>, off: int, len: nat) -> Seq<u16> {
    Seq::new(
        if len > 15 {
            15
        } else {
            len
        },
        |i: int| (s[off + 4 + 2 * i] as nat + 256 * (s[off + 5 + 2 * i] as nat)) as u16,
    )
}

impl AttributeSelector {
    /// Reads a selector at `off`: the attribute in the first two bytes, the
    /// number of indices in the fourth, then the indices, of which the
    /// first 15 are kept. The length given back is twice the number of
    /// indices plus one. Fewer than four bytes cannot be read here.
    pub open spec fn spec_parse(s: Seq<u8>, off: int) -> Result<(u16, Seq<u16>, int), ParseError> {
        let len = s[off + 3] as nat;
        if s.len() - (off + 4) < 2 * len {
            Err(ParseError::Incomplete)
        } else {
            Ok(
                (
                    (s[off] as nat + 256 * (s[off + 1] as nat)) as u16,
                    spec_indices(s, off, len),
                    (2 * len + 1) as int,
                ),
            )
        }
    }

    pub fn parse(bytes: &[u8], off: usize) -> (r: Result<(AttributeSelector, usize), ParseError>)
        requires
            off + 4 <= bytes@.len(),
        ensures
            match r {
                Ok((sel, n)) => AttributeSelector::spec_parse(bytes@, off as int)
                    == Ok::<(u16, Seq<u16>, int), ParseError>((sel.identifier, sel.indices@, n as int)),
                Err(e) => AttributeSelector::spec_parse(bytes@, off as int) == Err::<(u16, Seq<u16>, int), ParseError>(e),
            },
    {
        let blen = bytes.len();
        let identifier = (bytes[off] as u16) + 256 * (bytes[off + 1] as u16);
        let len = bytes[off + 3] as usize;
        if blen - (off + 4) < 2 * len {
            return Err(ParseError::Incomplete);
        }
        let mut indices: Vec<u16, 15> = Vec::new();
        let mut i: usize = 0;
        while i < len
            invariant
                i <= len,
                blen == bytes@.len(),
                len == bytes@[off + 3] as nat,
                off + 4 + 2 * len <= bytes@.len(),
                indices@ == spec_indices(bytes@, off as int, i as nat),
            decreases len - i,
        {
            let item = (bytes[off + 4 + 2 * i] as u16) + 256 * (bytes[off + 5 + 2 * i] as u16);
            let ghost before = indices@;
            let _ = indices.push(item);
            proof {
                assert(indices@ =~= spec_indices(bytes@, off as int, (i + 1) as nat));
            }
            i = i + 1;
        }
        Ok((AttributeSelector { identifier, indices }, len * 2 + 1))
    }

    /// The selector's bytes: the attribute, the number of indices, then the
    /// indices.
    pub open spec fn spec_bytes(id: u16, indices: Seq<u16>) -> Seq<u8> {
        le_bytes(id as nat, 2) + seq![indices.len() as u8] + Seq::new(
            2 * indices.len(),
            |i: int| if i % 2 == 0 {
                (indices[i / 2] % 256) as u8
            } else {
                (indices[i / 2] / 256) as u8
            },
        )
    }

    /// Appends the selector's bytes; gives back twice the number of indices
    /// plus one.
    pub fn serialize(&self, out: &mut std::vec::Vec<u8>) -> (r: usize)
        ensures
            final(out)@ == old(out)@ + AttributeSelector::spec_bytes(self.identifier, self.indices@),
            r == self.indices@.len() * 2 + 1,
    {
        let ghost start = out@;
        write_le(out, self.identifier as u64, 2);
        let n = self.indices.len();
        out.push(n as u8);
        let ghost head = out@;
        let mut i: usize = 0;
        while i < n
            invariant
                i <= n,
                n == self.indices@.len(),
                n <= 15,
                out@ == head + Seq::new(
                    2 * i as nat,
                    |k: int| if k % 2 == 0 {
                        (self.indices@[k / 2] % 256) as u8
                    } else {
                        (self.indices@[k / 2] / 256) as u8
                    },
                ),
            decreases n - i,
        {
            let v = *self.indices.get(i);
            out.push((v % 256) as u8);
            out.push((v / 256) as u8);
            proof {
                assert(out@ =~= head + Seq::new(
                    2 * (i + 1) as nat,
                    |k: int| if k % 2 == 0 {
                        (self.indices@[k / 2] % 256) as u8
                    } else {
                        (self.indices@[k / 2] / 256) as u8
                    },
                ));
            }
            i = i + 1;
        }
        proof {
            assert(out@ =~= start + AttributeSelector::spec_bytes(self.identifier, self.indices@));
        }
        n * 2 + 1
    }
}

/// The commands to list the commands a cluster receives or generates.
#[derive(Clone, Copy, Debug, PartialEq, Eq, Structural)]
pub struct DiscoverCommandsReceivedCommand {
    pub start_command_identifier: u8,
    pub maximum_command_identifiers: u8,
}

/// The commands listed.
pub struct DiscoverCommandsReceivedResponseCommand {
    pub discovery_complete: bool,
    pub identifiers: Vec<u8, MAX_COMMAND_ITEMS>,
}

/// A structured write of an attribute's element.
pub struct WriteAttributeRecord {
    pub selector: AttributeSelector,
    pub data: ZclData,
}

/// Structured writes.
pub struct WriteAttributesStructuredCommand {
    pub attributes: Vec<WriteAttributeRecord, MAX_COMMAND_ITEMS>,
}

/// Structured reads.
pub struct ReadAttributesStructuredCommand {
    pub attribute_selectors: Vec<AttributeSelector, MAX_COMMAND_ITEMS>,
}

/// What a structured write gave.
pub struct WriteAttributeStructuredStatus {
    pub status: ZclStatus,
    pub selector: AttributeSelector,
}

/// The answer to structured writes.
pub struct WriteAttributesStructuredResponseCommand {
    pub attributes: Vec<WriteAttributeStructuredStatus, MAX_COMMAND_ITEMS>,
}

/// An attribute, its data type and its access.
#[derive(Clone, Copy, Debug, PartialEq, Eq, Structural)]
pub struct ExtendedAttributeInformation {
    pub identifier: u16,
    pub data_type: u8,
    pub access_control: u8,
}

/// The attributes listed with their access.
pub struct DiscoverAttributesExtendedResponseCommand {
    pub discovery_complete: bool,
    pub attributes: Vec<ExtendedAttributeInformation, MAX_COMMAND_ITEMS>,
}

/// A command of every cluster.
pub enum GlobalZclCommand {
    ReadAttributes(ReadAttributesCommand),
    ReadAttributesResponse(ReadAttributesResponseCommand),
    WriteAttributes(WriteAttributesCommand),
    WriteAttributesUndivided(WriteAttributesCommand),
    WriteAttributesResponse(WriteAttributesResponseCommand),
    WriteAttributesNoResponse(WriteAttributesCommand),
    ConfigureReporting(ConfigureReportingCommand),
    ConfigureReportingResponse(ConfigureReportingResponseCommand),
    ReadReportingConfiguration(ReadReportingConfigurationCommand),
    ReadReportingConfigurationResponse(ReadReportingConfigurationResponseCommand),
    ReportAttributes(ReportAttributesCommand),
    DefaultResponse(DefaultResponseCommand),
    DiscoverAttributes(DiscoverAttributesCommand),
    DiscoverAttributesResponse(DiscoverAttributesResponseCommand),
    ReadAttributesStructured(ReadAttributesStructuredCommand),
    WriteAttributesStructured(WriteAttributesStructuredCommand),
    WriteAttributesStructuredResponse(WriteAttributesStructuredResponseCommand),
    DiscoverCommandsReceived(DiscoverCommandsReceivedCommand),
    DiscoverCommandsReceivedResponse(DiscoverCommandsReceivedResponseCommand),
    DiscoverCommandsGenerated(DiscoverCommandsReceivedCommand),
    DiscoverCommandsGeneratedResponse(DiscoverCommandsReceivedResponseCommand),
    DiscoverAttributesExtended(DiscoverAttributesCommand),
    DiscoverAttributesExtendedResponse(DiscoverAttributesExtendedResponseCommand),
}

impl GlobalZclCommand {
    /// The command identifier on the air.
    pub open spec fn spec_identifier(&self) -> u8 {
        match self {
            GlobalZclCommand::ReadAttributes(_) => 0x00,
            GlobalZclCommand::ReadAttributesResponse(_) => 0x01,
            GlobalZclCommand::WriteAttributes(_) => 0x02,
            GlobalZclCommand::WriteAttributesUndivided(_) => 0x03,
            GlobalZclCommand::WriteAttributesResponse(_) => 0x04,
            GlobalZclCommand::WriteAttributesNoResponse(_) => 0x05,
            GlobalZclCommand::ConfigureReporting(_) => 0x06,
            GlobalZclCommand::ConfigureReportingResponse(_) => 0x07,
            GlobalZclCommand::ReadReportingConfiguration(_) => 0x08,
            GlobalZclCommand::ReadReportingConfigurationResponse(_) => 0x09,
            GlobalZclCommand::ReportAttributes(_) => 0x0a,
            GlobalZclCommand::DefaultResponse(_) => 0x0b,
            GlobalZclCommand::DiscoverAttributes(_) => 0x0c,
            GlobalZclCommand::DiscoverAttributesResponse(_) => 0x0d,
            GlobalZclCommand::ReadAttributesStructured(_) => 0x0e,
            GlobalZclCommand::WriteAttributesStructured(_) => 0x0f,
            GlobalZclCommand::WriteAttributesStructuredResponse(_) => 0x10,
            GlobalZclCommand::DiscoverCommandsReceived(_) => 0x11,
            GlobalZclCommand::DiscoverCommandsReceivedResponse(_) => 0x12,
            GlobalZclCommand::DiscoverCommandsGenerated(_) => 0x13,
            GlobalZclCommand::DiscoverCommandsGeneratedResponse(_) => 0x14,
            GlobalZclCommand::DiscoverAttributesExtended(_) => 0x15,
            GlobalZclCommand::DiscoverAttributesExtendedResponse(_) => 0x16,
        }
    }

    pub fn identifier(&self) -> (r: u8)
        ensures
            r == self.spec_identifier(),
    {
        match self {
            GlobalZclCommand::ReadAttributes(_) => 0x00,
            GlobalZclCommand::ReadAttributesResponse(_) => 0x01,
            GlobalZclCommand::WriteAttributes(_) => 0x02,
            GlobalZclCommand::WriteAttributesUndivided(_) => 0x03,
            GlobalZclCommand::WriteAttributesResponse(_) => 0x04,
            GlobalZclCommand::WriteAttributesNoResponse(_) => 0x05,
            GlobalZclCommand::ConfigureReporting(_) => 0x06,
            GlobalZclCommand::ConfigureReportingResponse(_) => 0x07,
            GlobalZclCommand::ReadReportingConfiguration(_) => 0x08,
            GlobalZclCommand::ReadReportingConfigurationResponse(_) => 0x09,
            GlobalZclCommand::ReportAttributes(_) => 0x0a,
            GlobalZclCommand::DefaultResponse(_) => 0x0b,
            GlobalZclCommand::DiscoverAttributes(_) => 0x0c,
            GlobalZclCommand::DiscoverAttributesResponse(_) => 0x0d,
            GlobalZclCommand::ReadAttributesStructured(_) => 0x0e,
            GlobalZclCommand::WriteAttributesStructured(_) => 0x0f,
            GlobalZclCommand::WriteAttributesStructuredResponse(_) => 0x10,
            GlobalZclCommand::DiscoverCommandsReceived(_) => 0x11,
            GlobalZclCommand::DiscoverCommandsReceivedResponse(_) => 0x12,
            GlobalZclCommand::DiscoverCommandsGenerated(_) => 0x13,
            GlobalZclCommand::DiscoverCommandsGeneratedResponse(_) => 0x14,
            GlobalZclCommand::DiscoverAttributesExtended(_) => 0x15,
            GlobalZclCommand::DiscoverAttributesExtendedResponse(_) => 0x16,
        }
    }
}

/// Each command of every cluster is written with its identifier of the
/// cluster library specification.
pub proof fn lemma_global_command_identifiers(x: GlobalZclCommand)
    ensures
        x is ReadAttributes ==> x.spec_identifier() == 0x00u8,
        x is ReadAttributesResponse ==> x.spec_identifier() == 0x01u8,
        x is WriteAttributes ==> x.spec_identifier() == 0x02u8,
        x is WriteAttributesUndivided ==> x.spec_identifier() == 0x03u8,
        x is WriteAttributesResponse ==> x.spec_identifier() == 0x04u8,
        x is WriteAttributesNoResponse ==> x.spec_identifier() == 0x05u8,
        x is ConfigureReporting ==> x.spec_identifier() == 0x06u8,
        x is ConfigureReportingResponse ==> x.spec_identifier() == 0x07u8,
        x is ReadReportingConfiguration ==> x.spec_identifier() == 0x08u8,
        x is ReadReportingConfigurationResponse ==> x.spec_identifier() == 0x09u8,
        x is ReportAttributes ==> x.spec_identifier() == 0x0au8,
        x is DefaultResponse ==> x.spec_identifier() == 0x0bu8,
        x is DiscoverAttributes ==> x.spec_identifier() == 0x0cu8,
        x is DiscoverAttributesResponse ==> x.spec_identifier() == 0x0du8,
        x is ReadAttributesStructured ==> x.spec_identifier() == 0x0eu8,
        x is WriteAttributesStructured ==> x.spec_identifier() == 0x0fu8,
        x is WriteAttributesStructuredResponse ==> x.spec_identifier() == 0x10u8,
        x is DiscoverCommandsReceived ==> x.spec_identifier() == 0x11u8,
        x is DiscoverCommandsReceivedResponse ==> x.spec_identifier() == 0x12u8,
        x is DiscoverCommandsGenerated ==> x.spec_identifier() == 0x13u8,
        x is DiscoverCommandsGeneratedResponse ==> x.spec_identifier() == 0x14u8,
        x is DiscoverAttributesExtended ==> x.spec_identifier() == 0x15u8,
        x is DiscoverAttributesExtendedResponse ==> x.spec_identifier() == 0x16u8,
{
}

} // verus!
