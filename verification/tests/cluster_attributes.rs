use zigbee::collections::Vec;
use zigbee::zcl::cluster::{AttributeAccess, ClusterType, ZclAttribute, ZclCluster};
use zigbee::zcl::command::{AttributeRecord, ReadAttributesCommand, WriteAttributesCommand};
use zigbee::zcl::types::{ZclData, ZclStatus};

fn read_only_attr(value: i16) -> ZclAttribute {
    ZclAttribute::new(0x2, AttributeAccess::read_only(), Some((-27316, 32767)), ZclData::Int16(value))
}

fn read_write_attr(value: i16) -> ZclAttribute {
    ZclAttribute::new(0x3, AttributeAccess::read_write(), Some((-27316, 32767)), ZclData::Int16(value))
}

fn cluster() -> ZclCluster {
    let mut cluster = ZclCluster::new(0x1, ClusterType::Server);
    assert!(cluster.add_attribute(read_only_attr(0)).is_ok());
    assert!(cluster.add_attribute(read_write_attr(0)).is_ok());
    cluster
}

fn read_cmd(ids: &[u16]) -> ReadAttributesCommand {
    ReadAttributesCommand { attributes: Vec::from_slice(ids).unwrap() }
}

fn write_cmd(records: std::vec::Vec<AttributeRecord>) -> WriteAttributesCommand {
    let mut attributes = Vec::new();
    for r in records {
        assert!(attributes.push(r).is_ok());
    }
    WriteAttributesCommand { attributes }
}

#[test]
fn test_attribute_value_change() {
    let mut attribute = read_only_attr(18);
    attribute.set_value(ZclData::Int16(14)).unwrap();
    assert_eq!(attribute.value, ZclData::Int16(14));

    let result = attribute.set_value(ZclData::Int16(-30000));
    assert!(result.is_err());
    assert_eq!(attribute.value, ZclData::Int16(14));
}

#[test]
fn test_attribute_value_out_of_range() {
    let mut attribute = read_only_attr(18);
    let result = attribute.set_value(ZclData::Int16(-30000));
    assert!(result.is_err());
    assert_eq!(attribute.value, ZclData::Int16(18));
}

#[test]
fn attribute_refuses_another_data_type() {
    let mut attribute = read_only_attr(18);
    assert_eq!(attribute.set_value(ZclData::UInt16(14)), Err(ZclStatus::InvalidDataType));
    assert_eq!(attribute.set_value(ZclData::Int16(-30000)), Err(ZclStatus::InvalidValue));
    assert_eq!(attribute.value, ZclData::Int16(18));
}

#[test]
fn test_cluster_read_single_attribute() {
    let cluster = cluster();

    let result = cluster.read_attributes(&read_cmd(&[0x2]));
    assert_eq!(result.len(), 1);

    let result = result.get(0);
    assert_eq!(result.identifier, 0x2);
    assert_eq!(result.status, ZclStatus::Success);
    assert_eq!(result.data, Some(ZclData::Int16(0)));
}

#[test]
fn test_cluster_read_multiple_attributes() {
    let cluster = cluster();

    let result = cluster.read_attributes(&read_cmd(&[0x2, 0x3]));
    assert_eq!(result.len(), 2);

    assert_eq!(result.get(0).identifier, 0x2);
    assert_eq!(result.get(0).status, ZclStatus::Success);
    assert_eq!(result.get(0).data, Some(ZclData::Int16(0)));

    assert_eq!(result.get(1).identifier, 0x3);
    assert_eq!(result.get(1).status, ZclStatus::Success);
    assert_eq!(result.get(1).data, Some(ZclData::Int16(0)));
}

#[test]
fn read_of_unknown_attribute_is_unsupported() {
    let cluster = cluster();
    let result = cluster.read_attributes(&read_cmd(&[0x7]));
    assert_eq!(result.len(), 1);
    assert_eq!(result.get(0).identifier, 0x7);
    assert_eq!(result.get(0).status, ZclStatus::UnsupportedAttribute);
    assert_eq!(result.get(0).data, None);
}

#[test]
fn test_write_attribute() {
    let mut cluster = cluster();

    let results = cluster.write_attributes(&write_cmd(vec![AttributeRecord {
        identifier: 0x3,
        data: ZclData::Int16(14),
    }]));
    assert_eq!(results.len(), 1);

    let result = results.get(0);
    assert_eq!(result.identifier, 0x3);
    assert_eq!(result.status, ZclStatus::Success);

    let results = cluster.read_attributes(&read_cmd(&[0x3]));

    let result = results.get(0);
    assert_eq!(result.identifier, 0x3);
    assert_eq!(result.status, ZclStatus::Success);
    assert_eq!(result.data, Some(ZclData::Int16(14)));
}

#[test]
fn test_write_readonly_attribute_fails() {
    let mut cluster = cluster();

    let results = cluster.write_attributes(&write_cmd(vec![AttributeRecord {
        identifier: 0x2,
        data: ZclData::Int16(14),
    }]));

    assert_eq!(results.len(), 1);

    let result = results.get(0);
    assert_eq!(result.identifier, 0x2);
    assert_eq!(result.status, ZclStatus::ReadOnly);

    let results = cluster.read_attributes(&read_cmd(&[0x2]));

    let result = results.get(0);
    assert_eq!(result.identifier, 0x2);
    assert_eq!(result.status, ZclStatus::Success);
    assert_eq!(result.data, Some(ZclData::Int16(0)));
}

#[test]
fn test_write_multiple_attributes() {
    let mut cluster = cluster();

    let result = cluster.write_attributes(&write_cmd(vec![
        AttributeRecord { identifier: 0x2, data: ZclData::Int16(14) },
        AttributeRecord { identifier: 0x3, data: ZclData::Int16(14) },
    ]));

    assert_eq!(result.len(), 2);

    assert_eq!(result.get(0).identifier, 0x2);
    assert_eq!(result.get(0).status, ZclStatus::ReadOnly);

    assert_eq!(result.get(1).identifier, 0x3);
    assert_eq!(result.get(1).status, ZclStatus::Success);

    let result = cluster.read_attributes(&read_cmd(&[0x2, 0x3]));

    assert_eq!(result.get(0).identifier, 0x2);
    assert_eq!(result.get(0).status, ZclStatus::Success);
    assert_eq!(result.get(0).data, Some(ZclData::Int16(0)));

    assert_eq!(result.get(1).identifier, 0x3);
    assert_eq!(result.get(1).status, ZclStatus::Success);
    assert_eq!(result.get(1).data, Some(ZclData::Int16(14)));
}

#[test]
fn test_write_multiple_attributes_undivided() {
    let mut cluster = cluster();

    let result = cluster.write_attributes_undivided(&write_cmd(vec![
        AttributeRecord { identifier: 0x2, data: ZclData::Int16(14) },
        AttributeRecord { identifier: 0x3, data: ZclData::Int16(14) },
    ]));

    assert_eq!(result.len(), 2);

    assert_eq!(result.get(0).identifier, 0x2);
    assert_eq!(result.get(0).status, ZclStatus::ReadOnly);

    assert_eq!(result.get(1).identifier, 0x3);
    assert_eq!(result.get(1).status, ZclStatus::Success);

    let result = cluster.read_attributes(&read_cmd(&[0x2, 0x3]));

    assert_eq!(result.get(0).identifier, 0x2);
    assert_eq!(result.get(0).status, ZclStatus::Success);
    assert_eq!(result.get(0).data, Some(ZclData::Int16(0)));

    assert_eq!(result.get(1).identifier, 0x3);
    assert_eq!(result.get(1).status, ZclStatus::Success);
    assert_eq!(result.get(1).data, Some(ZclData::Int16(0)));
}

#[test]
fn write_out_of_range_is_invalid_value() {
    let mut cluster = cluster();
    let result = cluster.write_attributes(&write_cmd(vec![AttributeRecord {
        identifier: 0x3,
        data: ZclData::Int16(-30000),
    }]));
    assert_eq!(result.get(0).status, ZclStatus::InvalidValue);
    let result = cluster.write_attributes(&write_cmd(vec![AttributeRecord {
        identifier: 0x9,
        data: ZclData::Int16(1),
    }]));
    assert_eq!(result.get(0).status, ZclStatus::UnsupportedAttribute);
}

#[test]
fn test_discover_single() {
    let cluster = cluster();

    let result = cluster.discover_attributes(0, 1);
    assert_eq!(result.len(), 1);

    assert_eq!(result.get(0).identifier, 0x2);
    assert_eq!(result.get(0).data_type, 0x29);
}

#[test]
fn test_discover_multiple() {
    let cluster = cluster();

    let result = cluster.discover_attributes(0, 10);
    assert_eq!(result.len(), 2);

    assert_eq!(result.get(0).identifier, 0x2);
    assert_eq!(result.get(0).data_type, 0x29);

    assert_eq!(result.get(1).identifier, 0x3);
    assert_eq!(result.get(1).data_type, 0x29);
}

#[test]
fn test_discover_multiple_range() {
    let cluster = cluster();

    let result = cluster.discover_attributes(3, 10);
    assert_eq!(result.len(), 1);

    assert_eq!(result.get(0).identifier, 0x3);
    assert_eq!(result.get(0).data_type, 0x29);
}

fn value_of(c: &ZclCluster, id: u16) -> &ZclData {
    &c.attributes.get(&id).unwrap().value
}

#[test]
fn each_write_gets_the_status_of_its_check_and_the_last_one_wins() {
    let mut c = cluster();
    let r = c.write_attributes(&write_cmd(vec![
        AttributeRecord { identifier: 0x3, data: ZclData::Int16(5) },
        AttributeRecord { identifier: 0x2, data: ZclData::Int16(5) },
        AttributeRecord { identifier: 0x9, data: ZclData::Int16(5) },
        AttributeRecord { identifier: 0x3, data: ZclData::UInt8(5) },
        AttributeRecord { identifier: 0x3, data: ZclData::Int16(7) },
    ]));
    let statuses: std::vec::Vec<ZclStatus> = r.as_slice().iter().map(|s| s.status).collect();
    assert_eq!(
        statuses,
        vec![
            ZclStatus::Success,
            ZclStatus::ReadOnly,
            ZclStatus::UnsupportedAttribute,
            ZclStatus::InvalidDataType,
            ZclStatus::Success
        ]
    );
    assert_eq!(value_of(&c, 0x3), &ZclData::Int16(7));
    assert_eq!(value_of(&c, 0x2), &ZclData::Int16(0));
}

#[test]
fn an_undivided_write_that_succeeds_holds_each_last_value() {
    let mut c = cluster();
    let r = c.write_attributes_undivided(&write_cmd(vec![
        AttributeRecord { identifier: 0x3, data: ZclData::Int16(5) },
        AttributeRecord { identifier: 0x3, data: ZclData::Int16(9) },
    ]));
    assert!(r.as_slice().iter().all(|s| s.status == ZclStatus::Success));
    assert_eq!(value_of(&c, 0x3), &ZclData::Int16(9));
    assert_eq!(value_of(&c, 0x2), &ZclData::Int16(0));
}
