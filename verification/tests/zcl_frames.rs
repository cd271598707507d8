use zigbee::bytes::ParseError;
use zigbee::collections::Vec as ItemVec;
use zigbee::zcl::command::{
    AttributeSelector, DiscoverAttributeRecord, DiscoverAttributesResponseCommand, GlobalZclCommand,
    ReadAttributesCommand, WriteAttributeRecord, WriteAttributesStructuredCommand,
};
use zigbee::zcl::frame::{SpecificZclCommand, ZclDirection, ZclFrame, ZclFrameCommand, ZclFrameType};
use zigbee::zcl::types::{ZclData, ZclStatus};

fn read_attributes(ids: &[u16]) -> GlobalZclCommand {
    let mut attributes = ItemVec::new();
    for id in ids {
        attributes.push(*id).ok().unwrap();
    }
    GlobalZclCommand::ReadAttributes(ReadAttributesCommand { attributes })
}

fn write(frame: &ZclFrame) -> Vec<u8> {
    let mut out = Vec::new();
    frame.serialize(&mut out).unwrap();
    out
}

#[test]
fn a_read_attributes_frame_is_read() {
    let bytes = [0x00, 0x05, 0x00, 0x00, 0x00, 0x05, 0x00];
    let (frame, n) = ZclFrame::parse(&bytes).unwrap();
    assert_eq!(n, 7);
    assert_eq!(frame.header.sequence_number, 5);
    assert_eq!(frame.header.frame_control.frame_type, ZclFrameType::Global);
    assert_eq!(frame.header.manufacturer_code, None);
    match frame.command {
        ZclFrameCommand::Global(GlobalZclCommand::ReadAttributes(c)) => {
            assert_eq!(c.attributes.as_slice(), &[0x0000u16, 0x0005][..]);
        },
        _ => panic!("not a read of attributes"),
    }
}

#[test]
fn a_read_attributes_frame_is_written_and_read_back() {
    let frame = ZclFrame::new_global_command(read_attributes(&[0x0000, 0x0005]), 5, ZclDirection::ClientToServer, false);
    let bytes = write(&frame);
    assert_eq!(bytes, vec![0x00, 0x05, 0x00, 0x00, 0x00, 0x05, 0x00]);
    let (back, n) = ZclFrame::parse(&bytes).unwrap();
    assert_eq!(n, bytes.len());
    assert_eq!(back.header, frame.header);
}

#[test]
fn a_read_attributes_response_carries_values_only_on_success() {
    let bytes = [0x18, 0x01, 0x01, 0x00, 0x00, 0x00, 0x20, 0x2a, 0x05, 0x00, 0x86];
    let (frame, n) = ZclFrame::parse(&bytes).unwrap();
    assert_eq!(n, bytes.len());
    assert_eq!(frame.header.frame_control.direction, ZclDirection::ServerToClient);
    assert!(frame.header.frame_control.disable_default_response);
    match frame.command {
        ZclFrameCommand::Global(GlobalZclCommand::ReadAttributesResponse(c)) => {
            let records = c.attribute_statuses.as_slice();
            assert_eq!(records.len(), 2);
            assert_eq!(records[0].identifier, 0);
            assert_eq!(records[0].status, ZclStatus::Success);
            assert_eq!(records[0].data, Some(ZclData::UInt8(42)));
            assert_eq!(records[1].identifier, 5);
            assert_eq!(records[1].status, ZclStatus::UnsupportedAttribute);
            assert_eq!(records[1].data, None);
        },
        _ => panic!("not a read response"),
    }
}

#[test]
fn a_default_response_is_read() {
    let bytes = [0x18, 0x02, 0x0b, 0x00, 0x00];
    let (frame, n) = ZclFrame::parse(&bytes).unwrap();
    assert_eq!(n, 5);
    match frame.command {
        ZclFrameCommand::Global(GlobalZclCommand::DefaultResponse(c)) => {
            assert_eq!(c.command_identifier, 0);
            assert_eq!(c.status_code, ZclStatus::Success);
        },
        _ => panic!("not a default response"),
    }
}

#[test]
fn a_command_of_the_cluster_keeps_its_bytes() {
    let bytes = [0x01, 0x07, 0x01, 0xaa, 0xbb];
    let (frame, n) = ZclFrame::parse(&bytes).unwrap();
    assert_eq!(n, 5);
    match &frame.command {
        ZclFrameCommand::Specific(c) => {
            assert_eq!(c.identifier, 1);
            assert_eq!(c.data, vec![0xaa, 0xbb]);
        },
        _ => panic!("not a command of the cluster"),
    }
}

#[test]
fn a_command_of_the_cluster_is_written_without_its_identifier() {
    let frame = ZclFrame::new_specific_command(
        SpecificZclCommand { identifier: 2, data: vec![0x10, 0x20] },
        0x1234,
        ZclDirection::ClientToServer,
        true,
    );
    assert_eq!(write(&frame), vec![0x15, 0x34, 0x12, 0x00, 0x10, 0x20]);
}

#[test]
fn an_unknown_command_of_every_cluster_is_refused() {
    assert_eq!(ZclFrame::parse(&[0x00, 0x01, 0x17]).err(), Some(ParseError::BadInput));
    assert_eq!(GlobalZclCommand::parse(&[0x00], 0, 0x40).err(), Some(ParseError::BadInput));
}

#[test]
fn truncated_frames_are_incomplete() {
    assert_eq!(ZclFrame::parse(&[0x00]).err(), Some(ParseError::Incomplete));
    assert_eq!(ZclFrame::parse(&[0x00, 0x01]).err(), Some(ParseError::Incomplete));
    assert_eq!(ZclFrame::parse(&[0x00, 0x01, 0x0b, 0x00]).err(), Some(ParseError::Incomplete));
    assert_eq!(ZclFrame::parse(&[0x00, 0x01, 0x00, 0x05]).err(), Some(ParseError::Incomplete));
}

#[test]
fn a_completed_discovery_is_written_as_all_ones() {
    let mut attributes = ItemVec::new();
    attributes.push(DiscoverAttributeRecord { identifier: 0x0000, data_type: 0x20 }).ok().unwrap();
    let cmd = GlobalZclCommand::DiscoverAttributesResponse(DiscoverAttributesResponseCommand {
        discovery_complete: true,
        attributes,
    });
    let mut out = Vec::new();
    cmd.serialize(&mut out).unwrap();
    assert_eq!(out, vec![0x0d, 0xff, 0x00, 0x00, 0x20]);
    match GlobalZclCommand::parse(&out, 1, 0x0d).unwrap() {
        (GlobalZclCommand::DiscoverAttributesResponse(c), 4) => {
            assert!(c.discovery_complete);
            assert_eq!(c.attributes.as_slice(), &[DiscoverAttributeRecord { identifier: 0, data_type: 0x20 }][..]);
        },
        _ => panic!("not a discovery response"),
    }
}

#[test]
fn a_structured_write_lists_selector_then_value() {
    let mut indices = ItemVec::new();
    indices.push(3u16).ok().unwrap();
    let mut attributes = ItemVec::new();
    attributes
        .push(WriteAttributeRecord { selector: AttributeSelector { identifier: 0x0010, indices }, data: ZclData::UInt8(9) })
        .ok()
        .unwrap();
    let cmd = GlobalZclCommand::WriteAttributesStructured(WriteAttributesStructuredCommand { attributes });
    let mut out = Vec::new();
    cmd.serialize(&mut out).unwrap();
    assert_eq!(out, vec![0x0f, 0x10, 0x00, 0x01, 0x03, 0x00, 0x20, 0x09]);
}

#[test]
fn more_than_sixty_four_records_are_refused() {
    let mut payload = Vec::new();
    for i in 0..65u16 {
        payload.push((i % 256) as u8);
        payload.push(0);
    }
    assert_eq!(GlobalZclCommand::parse(&payload, 0, 0x00).err(), Some(ParseError::BadInput));
    assert!(GlobalZclCommand::parse(&payload[..128], 0, 0x00).is_ok());
}

#[test]
fn reporting_configurations_are_read_by_direction() {
    let payload = [
        0x00, 0x00, 0x00, 0x00, 0x29, 0x01, 0x00, 0x10, 0x00, 0x29, 0x05, 0x00, // reports sent
        0x86, 0x01, 0x05, 0x00, 0x3c, 0x00, // reports received
    ];
    match GlobalZclCommand::parse(&payload, 0, 0x09).unwrap() {
        (GlobalZclCommand::ReadReportingConfigurationResponse(c), n) => {
            assert_eq!(n, payload.len());
            let records = c.attributes.as_slice();
            assert_eq!(records.len(), 2);
            assert_eq!(records[0].status, ZclStatus::Success);
            assert_eq!(records[0].data_type, Some(0x29));
            assert_eq!(records[0].minimum_reporting_interval, Some(1));
            assert_eq!(records[0].maximum_reporting_interval, Some(16));
            assert_eq!(records[0].reportable_change, Some(ZclData::Int16(5)));
            assert_eq!(records[0].timeout_period, None);
            assert_eq!(records[1].status, ZclStatus::UnsupportedAttribute);
            assert_eq!(records[1].identifier, 5);
            assert_eq!(records[1].data_type, None);
            assert_eq!(records[1].timeout_period, Some(60));
        },
        _ => panic!("not a reporting configuration response"),
    }
    let mut out = Vec::new();
    GlobalZclCommand::parse(&payload, 0, 0x09).unwrap().0.serialize(&mut out).unwrap();
    assert_eq!(out[0], 0x09);
    assert_eq!(&out[1..], &payload[..]);
}
