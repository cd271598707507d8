//! How each record of the commands of every cluster is read and written.
use vstd::prelude::*;

use crate::bytes::{spec_u16_at, spec_u8_at, u16_at, u16_le, u8_at, write_u16, write_u8, ParseError};
use crate::zcl::command::{
    direction_code, spec_direction, AttributeReadReportingConfigurationRecord, AttributeRecord,
    AttributeReportingConfigurationDirection, AttributeReportingConfigurationRecord, AttributeSelector,
    AttributeStatusRecord, DiscoverAttributeRecord, ExtendedAttributeInformation, ReadAttributesStatusRecord,
    ReportingConfigurationAttributeStatus, ReportingRecordView, WriteAttributeRecord, WriteAttributeStatusRecord,
    WriteAttributeStructuredStatus, opt_u16_bytes, opt_u8_bytes,
};
use crate::zcl::types::{settle, spec_parse, ZclData, ZclDataView, ZclParse, ZclStatus};
use crate::zcl::wire::WireRecord;

verus! {

/// The status at `off`; a byte that is no status is refused.
pub open spec fn spec_status_at(s: Seq<u8>, off: int) -> Result<ZclStatus, ParseError> {
    match spec_u8_at(s, off) {
        Err(e) => Err(e),
        Ok(b) => match ZclStatus::spec_from_code(b) {
            Some(st) => Ok(st),
            None => Err(ParseError::BadInput),
        },
    }
}

pub(crate) fn status_at(bytes: &[u8], off: usize) -> (r: Result<ZclStatus, ParseError>)
    ensures
        bytes@.len() <= usize::MAX,
        r == spec_status_at(bytes@, off as int),
{
    match u8_at(bytes, off) {
        Err(e) => Err(e),
        Ok(b) => match ZclStatus::from_code(b) {
            Some(st) => Ok(st),
            None => Err(ParseError::BadInput),
        },
    }
}

/// The direction at `off` (see [`spec_direction`]).
pub open spec fn spec_direction_at(s: Seq<u8>, off: int) -> Result<AttributeReportingConfigurationDirection, ParseError> {
    match spec_u8_at(s, off) {
        Err(e) => Err(e),
        Ok(b) => spec_direction(b),
    }
}

fn direction_at(bytes: &[u8], off: usize) -> (r: Result<AttributeReportingConfigurationDirection, ParseError>)
    ensures
        bytes@.len() <= usize::MAX,
        r == spec_direction_at(bytes@, off as int),
{
    match u8_at(bytes, off) {
        Err(e) => Err(e),
        Ok(b) => if b == 0 {
            Ok(AttributeReportingConfigurationDirection::Report)
        } else if b == 1 {
            Ok(AttributeReportingConfigurationDirection::Receive)
        } else {
            Err(ParseError::BadInput)
        },
    }
}

fn write_direction(out: &mut std::vec::Vec<u8>, d: AttributeReportingConfigurationDirection)
    ensures
        final(out)@ == old(out)@.push(direction_code(d)),
{
    match d {
        AttributeReportingConfigurationDirection::Report => write_u8(out, 0),
        AttributeReportingConfigurationDirection::Receive => write_u8(out, 1),
    }
}

/// A value of the cluster library at `off`, at depth 0, and its length.
pub open spec fn spec_data_at(s: Seq<u8>, off: int) -> Result<(ZclDataView, int), ParseError> {
    match settle(spec_parse(s, off, 0)) {
        ZclParse::Parsed(d, n) => Ok((d, n)),
        ZclParse::Failed(e) => Err(e),
        ZclParse::Panics => Err(ParseError::Incomplete),
    }
}

pub(crate) fn data_at(bytes: &[u8], off: usize) -> (r: Result<(ZclData, usize), ParseError>)
    ensures
        match r {
            Ok((d, n)) => spec_data_at(bytes@, off as int) == Ok::<(ZclDataView, int), ParseError>((d.spec_view(), n as int))
                && 1 <= n && off + n <= bytes@.len(),
            Err(e) => spec_data_at(bytes@, off as int) == Err::<(ZclDataView, int), ParseError>(e),
        },
{
    ZclData::parse(bytes, off, 0)
}

impl WireRecord for u16 {
    type V = u16;

    open spec fn rec_view(&self) -> u16 {
        *self
    }

    open spec fn spec_read(s: Seq<u8>, off: int) -> Result<(u16, int), ParseError> {
        match spec_u16_at(s, off) {
            Ok(v) => Ok((v, 2)),
            Err(e) => Err(e),
        }
    }

    open spec fn spec_write(v: u16) -> Option<Seq<u8>> {
        Some(u16_le(v))
    }

    fn read(bytes: &[u8], off: usize) -> (r: Result<(u16, usize), ParseError>) {
        match u16_at(bytes, off) {
            Ok(v) => Ok((v, 2)),
            Err(e) => Err(e),
        }
    }

    fn write(&self, out: &mut std::vec::Vec<u8>) -> (r: Result<(), ParseError>) {
        write_u16(out, *self);
        Ok(())
    }
}

impl WireRecord for u8 {
    type V = u8;

    open spec fn rec_view(&self) -> u8 {
        *self
    }

    open spec fn spec_read(s: Seq<u8>, off: int) -> Result<(u8, int), ParseError> {
        match spec_u8_at(s, off) {
            Ok(v) => Ok((v, 1)),
            Err(e) => Err(e),
        }
    }

    open spec fn spec_write(v: u8) -> Option<Seq<u8>> {
        Some(seq![v])
    }

    fn read(bytes: &[u8], off: usize) -> (r: Result<(u8, usize), ParseError>) {
        match u8_at(bytes, off) {
            Ok(v) => Ok((v, 1)),
            Err(e) => Err(e),
        }
    }

    fn write(&self, out: &mut std::vec::Vec<u8>) -> (r: Result<(), ParseError>) {
        write_u8(out, *self);
        Ok(())
    }
}

impl WireRecord for WriteAttributeStatusRecord {
    type V = WriteAttributeStatusRecord;

    open spec fn rec_view(&self) -> WriteAttributeStatusRecord {
        *self
    }

    /// The status, then the attribute.
    open spec fn spec_read(s: Seq<u8>, off: int) -> Result<(WriteAttributeStatusRecord, int), ParseError> {
        match spec_status_at(s, off) {
            Err(e) => Err(e),
            Ok(status) => match spec_u16_at(s, off + 1) {
                Err(e) => Err(e),
                Ok(identifier) => Ok((WriteAttributeStatusRecord { status, identifier }, 3)),
            },
        }
    }

    open spec fn spec_write(v: WriteAttributeStatusRecord) -> Option<Seq<u8>> {
        Some(seq![v.status.spec_code()] + u16_le(v.identifier))
    }

    fn read(bytes: &[u8], off: usize) -> (r: Result<(WriteAttributeStatusRecord, usize), ParseError>) {
        let status = match status_at(bytes, off) {
            Ok(v) => v,
            Err(e) => return Err(e),
        };
        match u16_at(bytes, off + 1) {
            Ok(identifier) => Ok((WriteAttributeStatusRecord { status, identifier }, 3)),
            Err(e) => Err(e),
        }
    }

    fn write(&self, out: &mut std::vec::Vec<u8>) -> (r: Result<(), ParseError>) {
        let ghost start = out@;
        write_u8(out, self.status.code());
        write_u16(out, self.identifier);
        proof {
            assert(out@ =~= start + (seq![self.status.spec_code()] + u16_le(self.identifier)));
        }
        Ok(())
    }
}

impl WireRecord for AttributeStatusRecord {
    type V = AttributeStatusRecord;

    open spec fn rec_view(&self) -> AttributeStatusRecord {
        *self
    }

    /// The status, the direction, then the attribute.
    open spec fn spec_read(s: Seq<u8>, off: int) -> Result<(AttributeStatusRecord, int), ParseError> {
        match spec_status_at(s, off) {
            Err(e) => Err(e),
            Ok(status) => match spec_direction_at(s, off + 1) {
                Err(e) => Err(e),
                Ok(direction) => match spec_u16_at(s, off + 2) {
                    Err(e) => Err(e),
                    Ok(identifier) => Ok((AttributeStatusRecord { status, direction, identifier }, 4)),
                },
            },
        }
    }

    open spec fn spec_write(v: AttributeStatusRecord) -> Option<Seq<u8>> {
        Some(seq![v.status.spec_code(), direction_code(v.direction)] + u16_le(v.identifier))
    }

    fn read(bytes: &[u8], off: usize) -> (r: Result<(AttributeStatusRecord, usize), ParseError>) {
        let status = match status_at(bytes, off) {
            Ok(v) => v,
            Err(e) => return Err(e),
        };
        let direction = match direction_at(bytes, off + 1) {
            Ok(v) => v,
            Err(e) => return Err(e),
        };
        match u16_at(bytes, off + 2) {
            Ok(identifier) => Ok((AttributeStatusRecord { status, direction, identifier }, 4)),
            Err(e) => Err(e),
        }
    }

    fn write(&self, out: &mut std::vec::Vec<u8>) -> (r: Result<(), ParseError>) {
        let ghost start = out@;
        write_u8(out, self.status.code());
        write_direction(out, self.direction);
        write_u16(out, self.identifier);
        proof {
            assert(out@ =~= start + (seq![self.status.spec_code(), direction_code(self.direction)] + u16_le(self.identifier)));
        }
        Ok(())
    }
}

impl WireRecord for ReportingConfigurationAttributeStatus {
    type V = ReportingConfigurationAttributeStatus;

    open spec fn rec_view(&self) -> ReportingConfigurationAttributeStatus {
        *self
    }

    /// The direction, then the attribute.
    open spec fn spec_read(s: Seq<u8>, off: int) -> Result<(ReportingConfigurationAttributeStatus, int), ParseError> {
        match spec_direction_at(s, off) {
            Err(e) => Err(e),
            Ok(direction) => match spec_u16_at(s, off + 1) {
                Err(e) => Err(e),
                Ok(identifier) => Ok((ReportingConfigurationAttributeStatus { direction, identifier }, 3)),
            },
        }
    }

    open spec fn spec_write(v: ReportingConfigurationAttributeStatus) -> Option<Seq<u8>> {
        Some(seq![direction_code(v.direction)] + u16_le(v.identifier))
    }

    fn read(bytes: &[u8], off: usize) -> (r: Result<(ReportingConfigurationAttributeStatus, usize), ParseError>) {
        let direction = match direction_at(bytes, off) {
            Ok(v) => v,
            Err(e) => return Err(e),
        };
        match u16_at(bytes, off + 1) {
            Ok(identifier) => Ok((ReportingConfigurationAttributeStatus { direction, identifier }, 3)),
            Err(e) => Err(e),
        }
    }

    fn write(&self, out: &mut std::vec::Vec<u8>) -> (r: Result<(), ParseError>) {
        let ghost start = out@;
        write_direction(out, self.direction);
        write_u16(out, self.identifier);
        proof {
            assert(out@ =~= start + (seq![direction_code(self.direction)] + u16_le(self.identifier)));
        }
        Ok(())
    }
}

impl WireRecord for DiscoverAttributeRecord {
    type V = DiscoverAttributeRecord;

    open spec fn rec_view(&self) -> DiscoverAttributeRecord {
        *self
    }

    /// The attribute, then its data type.
    open spec fn spec_read(s: Seq<u8>, off: int) -> Result<(DiscoverAttributeRecord, int), ParseError> {
        match spec_u16_at(s, off) {
            Err(e) => Err(e),
            Ok(identifier) => match spec_u8_at(s, off + 2) {
                Err(e) => Err(e),
                Ok(data_type) => Ok((DiscoverAttributeRecord { identifier, data_type }, 3)),
            },
        }
    }

    open spec fn spec_write(v: DiscoverAttributeRecord) -> Option<Seq<u8>> {
        Some(u16_le(v.identifier).push(v.data_type))
    }

    fn read(bytes: &[u8], off: usize) -> (r: Result<(DiscoverAttributeRecord, usize), ParseError>) {
        let identifier = match u16_at(bytes, off) {
            Ok(v) => v,
            Err(e) => return Err(e),
        };
        if off > usize::MAX - 2 {
            return Err(ParseError::Incomplete);
        }
        match u8_at(bytes, off + 2) {
            Ok(data_type) => Ok((DiscoverAttributeRecord { identifier, data_type }, 3)),
            Err(e) => Err(e),
        }
    }

    fn write(&self, out: &mut std::vec::Vec<u8>) -> (r: Result<(), ParseError>) {
        let ghost start = out@;
        write_u16(out, self.identifier);
        write_u8(out, self.data_type);
        proof {
            assert(out@ =~= start + u16_le(self.identifier).push(self.data_type));
        }
        Ok(())
    }
}

impl WireRecord for ExtendedAttributeInformation {
    type V = ExtendedAttributeInformation;

    open spec fn rec_view(&self) -> ExtendedAttributeInformation {
        *self
    }

    /// The attribute, its data type, then its access.
    open spec fn spec_read(s: Seq<u8>, off: int) -> Result<(ExtendedAttributeInformation, int), ParseError> {
        match spec_u16_at(s, off) {
            Err(e) => Err(e),
            Ok(identifier) => match spec_u8_at(s, off + 2) {
                Err(e) => Err(e),
                Ok(data_type) => match spec_u8_at(s, off + 3) {
                    Err(e) => Err(e),
                    Ok(access_control) => Ok((ExtendedAttributeInformation { identifier, data_type, access_control }, 4)),
                },
            },
        }
    }

    open spec fn spec_write(v: ExtendedAttributeInformation) -> Option<Seq<u8>> {
        Some(u16_le(v.identifier) + seq![v.data_type, v.access_control])
    }

    fn read(bytes: &[u8], off: usize) -> (r: Result<(ExtendedAttributeInformation, usize), ParseError>) {
        let identifier = match u16_at(bytes, off) {
            Ok(v) => v,
            Err(e) => return Err(e),
        };
        if off > usize::MAX - 3 {
            return Err(ParseError::Incomplete);
        }
        let data_type = match u8_at(bytes, off + 2) {
            Ok(v) => v,
            Err(e) => return Err(e),
        };
        match u8_at(bytes, off + 3) {
            Ok(access_control) => Ok((ExtendedAttributeInformation { identifier, data_type, access_control }, 4)),
            Err(e) => Err(e),
        }
    }

    fn write(&self, out: &mut std::vec::Vec<u8>) -> (r: Result<(), ParseError>) {
        let ghost start = out@;
        write_u16(out, self.identifier);
        write_u8(out, self.data_type);
        write_u8(out, self.access_control);
        proof {
            assert(out@ =~= start + (u16_le(self.identifier) + seq![self.data_type, self.access_control]));
        }
        Ok(())
    }
}


/// The bytes of a reporting configuration as a record holds it: the
/// direction, the attribute, then each field that is given, in order.
pub open spec fn reporting_bytes(v: ReportingRecordView) -> Option<Seq<u8>> {
    let head = seq![direction_code(v.direction)] + u16_le(v.identifier) + opt_u8_bytes(v.data_type)
        + opt_u16_bytes(v.minimum_reporting_interval) + opt_u16_bytes(v.maximum_reporting_interval);
    match v.reportable_change {
        Some(d) => match d.spec_bytes(0) {
            Some(b) => Some(head + b + opt_u16_bytes(v.timeout_period)),
            None => None,
        },
        None => Some(head + opt_u16_bytes(v.timeout_period)),
    }
}

/// The bytes of a value of the cluster library at depth 0, where it is given.
pub open spec fn opt_data_bytes(d: Option<ZclDataView>) -> Option<Seq<u8>> {
    match d {
        Some(v) => v.spec_bytes(0),
        None => Some(Seq::empty()),
    }
}

impl WireRecord for AttributeRecord {
    type V = (u16, ZclDataView);

    open spec fn rec_view(&self) -> (u16, ZclDataView) {
        (self.identifier, self.data.spec_view())
    }

    /// The attribute, then its value with its data type.
    open spec fn spec_read(s: Seq<u8>, off: int) -> Result<((u16, ZclDataView), int), ParseError> {
        match spec_u16_at(s, off) {
            Err(e) => Err(e),
            Ok(identifier) => match spec_data_at(s, off + 2) {
                Err(e) => Err(e),
                Ok((d, n)) => Ok(((identifier, d), 2 + n)),
            },
        }
    }

    open spec fn spec_write(v: (u16, ZclDataView)) -> Option<Seq<u8>> {
        match v.1.spec_bytes(0) {
            Some(b) => Some(u16_le(v.0) + b),
            None => None,
        }
    }

    fn read(bytes: &[u8], off: usize) -> (r: Result<(AttributeRecord, usize), ParseError>) {
        let identifier = match u16_at(bytes, off) {
            Ok(v) => v,
            Err(e) => return Err(e),
        };
        match data_at(bytes, off + 2) {
            Ok((data, n)) => Ok((AttributeRecord { identifier, data }, 2 + n)),
            Err(e) => Err(e),
        }
    }

    fn write(&self, out: &mut std::vec::Vec<u8>) -> (r: Result<(), ParseError>) {
        let ghost start = out@;
        write_u16(out, self.identifier);
        let ghost mid = out@;
        match self.data.serialize(out, 0) {
            Ok(()) => {
                proof {
                    assert(out@ =~= start + (u16_le(self.identifier) + self.data.spec_view().spec_bytes(0)->Some_0));
                }
                Ok(())
            },
            Err(e) => Err(e),
        }
    }
}

impl WireRecord for ReadAttributesStatusRecord {
    type V = (u16, ZclStatus, Option<ZclDataView>);

    open spec fn rec_view(&self) -> (u16, ZclStatus, Option<ZclDataView>) {
        (
            self.identifier,
            self.status,
            match self.data {
                Some(d) => Some(d.spec_view()),
                None => None,
            },
        )
    }

    /// The attribute, the status, then the value where the status is a
    /// success.
    open spec fn spec_read(s: Seq<u8>, off: int) -> Result<((u16, ZclStatus, Option<ZclDataView>), int), ParseError> {
        match spec_u16_at(s, off) {
            Err(e) => Err(e),
            Ok(identifier) => match spec_status_at(s, off + 2) {
                Err(e) => Err(e),
                Ok(status) => if status == ZclStatus::Success {
                    match spec_data_at(s, off + 3) {
                        Err(e) => Err(e),
                        Ok((d, n)) => Ok(((identifier, status, Some(d)), 3 + n)),
                    }
                } else {
                    Ok(((identifier, status, None), 3))
                },
            },
        }
    }

    open spec fn spec_write(v: (u16, ZclStatus, Option<ZclDataView>)) -> Option<Seq<u8>> {
        match opt_data_bytes(v.2) {
            Some(b) => Some(u16_le(v.0) + seq![v.1.spec_code()] + b),
            None => None,
        }
    }

    fn read(bytes: &[u8], off: usize) -> (r: Result<(ReadAttributesStatusRecord, usize), ParseError>) {
        let identifier = match u16_at(bytes, off) {
            Ok(v) => v,
            Err(e) => return Err(e),
        };
        let status = match status_at(bytes, off + 2) {
            Ok(v) => v,
            Err(e) => return Err(e),
        };
        if matches!(status, ZclStatus::Success) {
            match data_at(bytes, off + 3) {
                Ok((d, n)) => Ok((ReadAttributesStatusRecord { identifier, status, data: Some(d) }, 3 + n)),
                Err(e) => Err(e),
            }
        } else {
            Ok((ReadAttributesStatusRecord { identifier, status, data: None }, 3))
        }
    }

    fn write(&self, out: &mut std::vec::Vec<u8>) -> (r: Result<(), ParseError>) {
        let ghost start = out@;
        write_u16(out, self.identifier);
        write_u8(out, self.status.code());
        match &self.data {
            Some(d) => match d.serialize(out, 0) {
                Ok(()) => {},
                Err(e) => return Err(e),
            },
            None => {},
        }
        proof {
            assert(out@ =~= start + Self::spec_write(self.rec_view())->Some_0);
        }
        Ok(())
    }
}

impl WireRecord for AttributeReportingConfigurationRecord {
    type V = ReportingRecordView;

    open spec fn rec_view(&self) -> ReportingRecordView {
        self.spec_view()
    }

    open spec fn spec_read(s: Seq<u8>, off: int) -> Result<(ReportingRecordView, int), ParseError> {
        AttributeReportingConfigurationRecord::spec_parse(s, off)
    }

    open spec fn spec_write(v: ReportingRecordView) -> Option<Seq<u8>> {
        reporting_bytes(v)
    }

    fn read(bytes: &[u8], off: usize) -> (r: Result<(AttributeReportingConfigurationRecord, usize), ParseError>) {
        AttributeReportingConfigurationRecord::parse(bytes, off)
    }

    fn write(&self, out: &mut std::vec::Vec<u8>) -> (r: Result<(), ParseError>) {
        proof {
            assert(self.spec_bytes() == reporting_bytes(self.spec_view()));
        }
        self.serialize(out)
    }
}

impl WireRecord for AttributeReadReportingConfigurationRecord {
    type V = (ZclStatus, ReportingRecordView);

    open spec fn rec_view(&self) -> (ZclStatus, ReportingRecordView) {
        (
            self.status,
            ReportingRecordView {
                direction: self.direction,
                identifier: self.identifier,
                data_type: self.data_type,
                minimum_reporting_interval: self.minimum_reporting_interval,
                maximum_reporting_interval: self.maximum_reporting_interval,
                reportable_change: match self.reportable_change {
                    Some(d) => Some(d.spec_view()),
                    None => None,
                },
                timeout_period: self.timeout_period,
            },
        )
    }

    /// The status, the direction and the attribute; then for reports sent
    /// the data type, the two intervals and the reportable change with its
    /// data type, for reports received the timeout.
    open spec fn spec_read(s: Seq<u8>, off: int) -> Result<((ZclStatus, ReportingRecordView), int), ParseError> {
        match spec_status_at(s, off) {
            Err(e) => Err(e),
            Ok(status) => match spec_direction_at(s, off + 1) {
                Err(e) => Err(e),
                Ok(direction) => match spec_u16_at(s, off + 2) {
                    Err(e) => Err(e),
                    Ok(identifier) => if direction == AttributeReportingConfigurationDirection::Report {
                        match spec_u8_at(s, off + 4) {
                            Err(e) => Err(e),
                            Ok(t) => match spec_u16_at(s, off + 5) {
                                Err(e) => Err(e),
                                Ok(min) => match spec_u16_at(s, off + 7) {
                                    Err(e) => Err(e),
                                    Ok(max) => match spec_data_at(s, off + 9) {
                                        Err(e) => Err(e),
                                        Ok((d, n)) => Ok(
                                            (
                                                (
                                                    status,
                                                    ReportingRecordView {
                                                        direction,
                                                        identifier,
                                                        data_type: Some(t),
                                                        minimum_reporting_interval: Some(min),
                                                        maximum_reporting_interval: Some(max),
                                                        reportable_change: Some(d),
                                                        timeout_period: None,
                                                    },
                                                ),
                                                9 + n,
                                            ),
                                        ),
                                    },
                                },
                            },
                        }
                    } else {
                        match spec_u16_at(s, off + 4) {
                            Err(e) => Err(e),
                            Ok(t) => Ok(
                                (
                                    (
                                        status,
                                        ReportingRecordView {
                                            direction,
                                            identifier,
                                            data_type: None,
                                            minimum_reporting_interval: None,
                                            maximum_reporting_interval: None,
                                            reportable_change: None,
                                            timeout_period: Some(t),
                                        },
                                    ),
                                    6,
                                ),
                            ),
                        }
                    },
                },
            },
        }
    }

    open spec fn spec_write(v: (ZclStatus, ReportingRecordView)) -> Option<Seq<u8>> {
        match reporting_bytes(v.1) {
            Some(b) => Some(seq![v.0.spec_code()] + b),
            None => None,
        }
    }

    fn read(bytes: &[u8], off: usize) -> (r: Result<(AttributeReadReportingConfigurationRecord, usize), ParseError>) {
        let status = match status_at(bytes, off) {
            Ok(v) => v,
            Err(e) => return Err(e),
        };
        let direction = match direction_at(bytes, off + 1) {
            Ok(v) => v,
            Err(e) => return Err(e),
        };
        let identifier = match u16_at(bytes, off + 2) {
            Ok(v) => v,
            Err(e) => return Err(e),
        };
        match direction {
            AttributeReportingConfigurationDirection::Report => {
                let t = match u8_at(bytes, off + 4) {
                    Ok(v) => v,
                    Err(e) => return Err(e),
                };
                let min = match u16_at(bytes, off + 5) {
                    Ok(v) => v,
                    Err(e) => return Err(e),
                };
                let max = match u16_at(bytes, off + 7) {
                    Ok(v) => v,
                    Err(e) => return Err(e),
                };
                match data_at(bytes, off + 9) {
                    Ok((d, n)) => Ok(
                        (
                            AttributeReadReportingConfigurationRecord {
                                status,
                                direction,
                                identifier,
                                data_type: Some(t),
                                minimum_reporting_interval: Some(min),
                                maximum_reporting_interval: Some(max),
                                reportable_change: Some(d),
                                timeout_period: None,
                            },
                            9 + n,
                        ),
                    ),
                    Err(e) => Err(e),
                }
            },
            AttributeReportingConfigurationDirection::Receive => {
                match u16_at(bytes, off + 4) {
                    Ok(t) => Ok(
                        (
                            AttributeReadReportingConfigurationRecord {
                                status,
                                direction,
                                identifier,
                                data_type: None,
                                minimum_reporting_interval: None,
                                maximum_reporting_interval: None,
                                reportable_change: None,
                                timeout_period: Some(t),
                            },
                            6,
                        ),
                    ),
                    Err(e) => Err(e),
                }
            },
        }
    }

    fn write(&self, out: &mut std::vec::Vec<u8>) -> (r: Result<(), ParseError>) {
        let ghost start = out@;
        write_u8(out, self.status.code());
        let ghost first = out@;
        write_reporting_head(
            out,
            self.direction,
            self.identifier,
            self.data_type,
            self.minimum_reporting_interval,
            self.maximum_reporting_interval,
        );
        let ghost head = out@;
        if let Some(change) = &self.reportable_change {
            match change.serialize(out, 0) {
                Ok(()) => {},
                Err(e) => return Err(e),
            }
        }
        let ghost mid = out@;
        if let Some(t) = self.timeout_period {
            write_u16(out, t);
        }
        proof {
            let v = self.rec_view().1;
            let h = seq![direction_code(v.direction)] + u16_le(v.identifier) + opt_u8_bytes(v.data_type)
                + opt_u16_bytes(v.minimum_reporting_interval) + opt_u16_bytes(v.maximum_reporting_interval);
            assert(head == first + h);
            match v.reportable_change {
                Some(d) => {
                    assert(mid == head + d.spec_bytes(0)->Some_0);
                    assert(reporting_bytes(v)->Some_0 == h + d.spec_bytes(0)->Some_0 + opt_u16_bytes(v.timeout_period));
                },
                None => {
                    assert(mid == head);
                    assert(reporting_bytes(v)->Some_0 == h + opt_u16_bytes(v.timeout_period));
                },
            }
            assert(out@ =~= start + Self::spec_write(self.rec_view())->Some_0);
        }
        Ok(())
    }
}

/// Appends the direction, the attribute, and the data type and intervals
/// where given.
fn write_reporting_head(
    out: &mut std::vec::Vec<u8>,
    direction: AttributeReportingConfigurationDirection,
    identifier: u16,
    data_type: Option<u8>,
    min: Option<u16>,
    max: Option<u16>,
)
    ensures
        final(out)@ == old(out)@ + (seq![direction_code(direction)] + u16_le(identifier) + opt_u8_bytes(data_type)
            + opt_u16_bytes(min) + opt_u16_bytes(max)),
{
    let ghost start = out@;
    write_direction(out, direction);
    write_u16(out, identifier);
    let ghost a = out@;
    if let Some(t) = data_type {
        write_u8(out, t);
    }
    let ghost b = out@;
    assert(b =~= a + opt_u8_bytes(data_type));
    if let Some(v) = min {
        write_u16(out, v);
    }
    let ghost c = out@;
    assert(c =~= b + opt_u16_bytes(min));
    if let Some(v) = max {
        write_u16(out, v);
    }
    assert(out@ =~= c + opt_u16_bytes(max));
    assert(out@ =~= start + (seq![direction_code(direction)] + u16_le(identifier) + opt_u8_bytes(data_type)
        + opt_u16_bytes(min) + opt_u16_bytes(max)));
}

/// A selector at `off` as [`AttributeSelector::spec_parse`] reads it;
/// fewer than four bytes are incomplete.
pub open spec fn spec_selector_at(s: Seq<u8>, off: int) -> Result<((u16, Seq<u16>), int), ParseError> {
    if off < 0 || off + 4 > s.len() {
        Err(ParseError::Incomplete)
    } else {
        match AttributeSelector::spec_parse(s, off) {
            Ok((identifier, indices, n)) => Ok(((identifier, indices), n)),
            Err(e) => Err(e),
        }
    }
}

fn selector_at(bytes: &[u8], off: usize) -> (r: Result<(AttributeSelector, usize), ParseError>)
    ensures
        bytes@.len() <= usize::MAX,
        match r {
            Ok((sel, n)) => spec_selector_at(bytes@, off as int) == Ok::<((u16, Seq<u16>), int), ParseError>(
                ((sel.identifier, sel.indices@), n as int),
            ) && 1 <= n && off + n <= bytes@.len(),
            Err(e) => spec_selector_at(bytes@, off as int) == Err::<((u16, Seq<u16>), int), ParseError>(e),
        },
{
    let blen = bytes.len();
    if off >= blen || blen - off < 4 {
        return Err(ParseError::Incomplete);
    }
    AttributeSelector::parse(bytes, off)
}

impl WireRecord for AttributeSelector {
    type V = (u16, Seq<u16>);

    open spec fn rec_view(&self) -> (u16, Seq<u16>) {
        (self.identifier, self.indices@)
    }

    open spec fn spec_read(s: Seq<u8>, off: int) -> Result<((u16, Seq<u16>), int), ParseError> {
        spec_selector_at(s, off)
    }

    open spec fn spec_write(v: (u16, Seq<u16>)) -> Option<Seq<u8>> {
        Some(AttributeSelector::spec_bytes(v.0, v.1))
    }

    fn read(bytes: &[u8], off: usize) -> (r: Result<(AttributeSelector, usize), ParseError>) {
        selector_at(bytes, off)
    }

    fn write(&self, out: &mut std::vec::Vec<u8>) -> (r: Result<(), ParseError>) {
        let _ = self.serialize(out);
        Ok(())
    }
}

impl WireRecord for WriteAttributeRecord {
    type V = ((u16, Seq<u16>), ZclDataView);

    open spec fn rec_view(&self) -> ((u16, Seq<u16>), ZclDataView) {
        ((self.selector.identifier, self.selector.indices@), self.data.spec_view())
    }

    /// The selector, then the value with its data type.
    open spec fn spec_read(s: Seq<u8>, off: int) -> Result<(((u16, Seq<u16>), ZclDataView), int), ParseError> {
        match spec_selector_at(s, off) {
            Err(e) => Err(e),
            Ok((sel, n)) => match spec_data_at(s, off + n) {
                Err(e) => Err(e),
                Ok((d, m)) => Ok(((sel, d), n + m)),
            },
        }
    }

    open spec fn spec_write(v: ((u16, Seq<u16>), ZclDataView)) -> Option<Seq<u8>> {
        match v.1.spec_bytes(0) {
            Some(b) => Some(AttributeSelector::spec_bytes(v.0.0, v.0.1) + b),
            None => None,
        }
    }

    fn read(bytes: &[u8], off: usize) -> (r: Result<(WriteAttributeRecord, usize), ParseError>) {
        let (selector, n) = match selector_at(bytes, off) {
            Ok(v) => v,
            Err(e) => return Err(e),
        };
        match data_at(bytes, off + n) {
            Ok((data, m)) => Ok((WriteAttributeRecord { selector, data }, n + m)),
            Err(e) => Err(e),
        }
    }

    fn write(&self, out: &mut std::vec::Vec<u8>) -> (r: Result<(), ParseError>) {
        let ghost start = out@;
        let _ = self.selector.serialize(out);
        match self.data.serialize(out, 0) {
            Ok(()) => {
                proof {
                    assert(out@ =~= start + Self::spec_write(self.rec_view())->Some_0);
                }
                Ok(())
            },
            Err(e) => Err(e),
        }
    }
}

impl WireRecord for WriteAttributeStructuredStatus {
    type V = (ZclStatus, (u16, Seq<u16>));

    open spec fn rec_view(&self) -> (ZclStatus, (u16, Seq<u16>)) {
        (self.status, (self.selector.identifier, self.selector.indices@))
    }

    /// The status, then the selector.
    open spec fn spec_read(s: Seq<u8>, off: int) -> Result<((ZclStatus, (u16, Seq<u16>)), int), ParseError> {
        match spec_status_at(s, off) {
            Err(e) => Err(e),
            Ok(status) => match spec_selector_at(s, off + 1) {
                Err(e) => Err(e),
                Ok((sel, n)) => Ok(((status, sel), 1 + n)),
            },
        }
    }

    open spec fn spec_write(v: (ZclStatus, (u16, Seq<u16>))) -> Option<Seq<u8>> {
        Some(seq![v.0.spec_code()] + AttributeSelector::spec_bytes(v.1.0, v.1.1))
    }

    fn read(bytes: &[u8], off: usize) -> (r: Result<(WriteAttributeStructuredStatus, usize), ParseError>) {
        let status = match status_at(bytes, off) {
            Ok(v) => v,
            Err(e) => return Err(e),
        };
        match selector_at(bytes, off + 1) {
            Ok((selector, n)) => Ok((WriteAttributeStructuredStatus { status, selector }, 1 + n)),
            Err(e) => Err(e),
        }
    }

    fn write(&self, out: &mut std::vec::Vec<u8>) -> (r: Result<(), ParseError>) {
        let ghost start = out@;
        write_u8(out, self.status.code());
        let _ = self.selector.serialize(out);
        proof {
            assert(out@ =~= start + Self::spec_write(self.rec_view())->Some_0);
        }
        Ok(())
    }
}

/// The bytes of the fixed records of the commands of every cluster, each
/// attribute identifier low byte first: a write status is the status, then
/// the attribute; a reporting configuration status the status, the
/// direction (0 for reports sent, 1 for reports received), then the
/// attribute; a read status the attribute, the status, then the value where
/// there is one; a discovered attribute the attribute, then its data type;
/// with its access, the attribute, its data type, then its access.
pub proof fn lemma_record_layouts(
    w: WriteAttributeStatusRecord,
    a: AttributeStatusRecord,
    r: (u16, ZclStatus, Option<ZclDataView>),
    d: DiscoverAttributeRecord,
    x: ExtendedAttributeInformation,
)
    ensures
        WriteAttributeStatusRecord::spec_write(w) == Some(
            seq![w.status.spec_code(), (w.identifier % 256) as u8, (w.identifier / 256) as u8],
        ),
        AttributeStatusRecord::spec_write(a) == Some(
            seq![
                a.status.spec_code(),
                if a.direction == AttributeReportingConfigurationDirection::Report { 0u8 } else { 1u8 },
                (a.identifier % 256) as u8,
                (a.identifier / 256) as u8,
            ],
        ),
        ReadAttributesStatusRecord::spec_write(r) matches Some(b) ==> b.subrange(0, 3) == seq![
            (r.0 % 256) as u8,
            (r.0 / 256) as u8,
            r.1.spec_code(),
        ],
        r.2 is None ==> ReadAttributesStatusRecord::spec_write(r) == Some(
            seq![(r.0 % 256) as u8, (r.0 / 256) as u8, r.1.spec_code()],
        ),
        DiscoverAttributeRecord::spec_write(d) == Some(
            seq![(d.identifier % 256) as u8, (d.identifier / 256) as u8, d.data_type],
        ),
        ExtendedAttributeInformation::spec_write(x) == Some(
            seq![(x.identifier % 256) as u8, (x.identifier / 256) as u8, x.data_type, x.access_control],
        ),
{
    crate::bytes::lemma_u16_le_bytes(w.identifier);
    crate::bytes::lemma_u16_le_bytes(a.identifier);
    crate::bytes::lemma_u16_le_bytes(r.0);
    crate::bytes::lemma_u16_le_bytes(d.identifier);
    crate::bytes::lemma_u16_le_bytes(x.identifier);
    assert(WriteAttributeStatusRecord::spec_write(w)->Some_0 =~= seq![
        w.status.spec_code(),
        (w.identifier % 256) as u8,
        (w.identifier / 256) as u8,
    ]);
    assert(AttributeStatusRecord::spec_write(a)->Some_0 =~= seq![
        a.status.spec_code(),
        if a.direction == AttributeReportingConfigurationDirection::Report { 0u8 } else { 1u8 },
        (a.identifier % 256) as u8,
        (a.identifier / 256) as u8,
    ]);
    match ReadAttributesStatusRecord::spec_write(r) {
        Some(b) => {
            assert(b.subrange(0, 3) =~= seq![(r.0 % 256) as u8, (r.0 / 256) as u8, r.1.spec_code()]);
        },
        None => {},
    }
    assert(DiscoverAttributeRecord::spec_write(d)->Some_0 =~= seq![
        (d.identifier % 256) as u8,
        (d.identifier / 256) as u8,
        d.data_type,
    ]);
    assert(ExtendedAttributeInformation::spec_write(x)->Some_0 =~= seq![
        (x.identifier % 256) as u8,
        (x.identifier / 256) as u8,
        x.data_type,
        x.access_control,
    ]);
}

} // verus!

