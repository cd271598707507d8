//! The temperature measurement cluster (0x0402): temperatures in hundredths
//! of a degree Celsius.
use vstd::prelude::*;

use crate::zcl::cluster::{
    Attribute, AttributeAccess, AttributeView, ClusterType, ReportedAttributeIntervalsConfig, ReportingView, ZclAttribute,
    ZclCluster,
};
use crate::zcl::types::{ZclData, ZclDataView, ZclStatus};

verus! {

/// The lowest temperature a bound may be set to.
pub const MIN_TEMPERATURE_BOUND: i16 = -27315;

/// The highest temperature a bound may be set to.
pub const MAX_TEMPERATURE_BOUND: i16 = 32766;

/// The highest tolerance.
pub const MAX_TOLERANCE: u16 = 0x8000;

/// The temperature measured (attribute 0x0000; read and reported, at most
/// every 0xffff seconds).
pub struct MeasuredValue {
    pub value: i16,
}

/// The lowest temperature the sensor measures (attribute 0x0001; read
/// only; between -27315 and 32766).
pub struct MinMeasuredValue {
    pub value: i16,
}

/// The highest temperature the sensor measures (attribute 0x0002; read
/// only; between -27315 and 32766).
pub struct MaxMeasuredValue {
    pub value: i16,
}

/// How far the measure may be off (attribute 0x0004; read and reported;
/// between 0 and 0x8000).
pub struct Tolerance {
    pub value: u16,
}

impl MeasuredValue {
    pub fn new(value: i16) -> (r: Self)
        ensures
            r.value == value,
    {
        MeasuredValue { value }
    }

    pub open spec fn spec_attribute(&self) -> AttributeView {
        AttributeView {
            identifier: 0x0000,
            access: AttributeAccess { read: true, write: false, report: true, scene: false },
            value: ZclDataView::Int16(self.value),
            range: None,
            reporting: Some(
                ReportingView { default: (0x0, 0xffff), current: (0x0, 0xffff), reportable_change: None, last_reported_on: None },
            ),
        }
    }

    /// The attribute as the cluster library holds it.
    pub fn attribute(&self) -> (r: ZclAttribute)
        ensures
            r.spec_view() == self.spec_attribute(),
    {
        let mut a = ZclAttribute::new(0x0000, AttributeAccess::read_report(), None, ZclData::Int16(self.value));
        a.reporting = Some(ReportedAttributeIntervalsConfig::new((0x0, 0xffff), None));
        a
    }
}

impl Attribute<i16> for MinMeasuredValue {
    fn get_value(&self) -> (r: i16)
        ensures
            r == self.value,
    {
        self.value
    }

    /// Takes a temperature within the bounds; refuses any other with
    /// `InvalidValue` and keeps its own.
    fn set_value(&mut self, value: i16) -> (r: Result<(), ZclStatus>)
        ensures
            (MIN_TEMPERATURE_BOUND <= value <= MAX_TEMPERATURE_BOUND) ==> r is Ok && final(self).value == value,
            !(MIN_TEMPERATURE_BOUND <= value <= MAX_TEMPERATURE_BOUND) ==> r == Err::<(), ZclStatus>(
                ZclStatus::InvalidValue,
            ) && final(self).value == old(self).value,
    {
        self.validate_value(&value)?;
        self.value = value;
        Ok(())
    }

    /// A temperature within the bounds passes; any other is an invalid
    /// value.
    fn validate_value(&self, value: &i16) -> (r: Result<(), ZclStatus>)
        ensures
            (MIN_TEMPERATURE_BOUND <= *value <= MAX_TEMPERATURE_BOUND) <==> r is Ok,
            r is Err ==> r == Err::<(), ZclStatus>(ZclStatus::InvalidValue),
    {
        if *value < MIN_TEMPERATURE_BOUND || *value > MAX_TEMPERATURE_BOUND {
            Err(ZclStatus::InvalidValue)
        } else {
            Ok(())
        }
    }
}

impl MinMeasuredValue {
    pub fn new(value: i16) -> (r: Self)
        ensures
            r.value == value,
    {
        MinMeasuredValue { value }
    }

    pub open spec fn spec_attribute(&self) -> AttributeView {
        AttributeView {
            identifier: 0x0001,
            access: AttributeAccess { read: true, write: false, report: false, scene: false },
            value: ZclDataView::Int16(self.value),
            range: Some((MIN_TEMPERATURE_BOUND as i128, MAX_TEMPERATURE_BOUND as i128)),
            reporting: None,
        }
    }

    /// The attribute as the cluster library holds it.
    pub fn attribute(&self) -> (r: ZclAttribute)
        ensures
            r.spec_view() == self.spec_attribute(),
    {
        ZclAttribute::new(
            0x0001,
            AttributeAccess::read_only(),
            Some((MIN_TEMPERATURE_BOUND as i128, MAX_TEMPERATURE_BOUND as i128)),
            ZclData::Int16(self.value),
        )
    }
}

impl Attribute<i16> for MaxMeasuredValue {
    fn get_value(&self) -> (r: i16)
        ensures
            r == self.value,
    {
        self.value
    }

    /// Takes a temperature within the bounds; refuses any other with
    /// `InvalidValue` and keeps its own.
    fn set_value(&mut self, value: i16) -> (r: Result<(), ZclStatus>)
        ensures
            (MIN_TEMPERATURE_BOUND <= value <= MAX_TEMPERATURE_BOUND) ==> r is Ok && final(self).value == value,
            !(MIN_TEMPERATURE_BOUND <= value <= MAX_TEMPERATURE_BOUND) ==> r == Err::<(), ZclStatus>(
                ZclStatus::InvalidValue,
            ) && final(self).value == old(self).value,
    {
        self.validate_value(&value)?;
        self.value = value;
        Ok(())
    }

    /// A temperature within the bounds passes; any other is an invalid
    /// value.
    fn validate_value(&self, value: &i16) -> (r: Result<(), ZclStatus>)
        ensures
            (MIN_TEMPERATURE_BOUND <= *value <= MAX_TEMPERATURE_BOUND) <==> r is Ok,
            r is Err ==> r == Err::<(), ZclStatus>(ZclStatus::InvalidValue),
    {
        if *value < MIN_TEMPERATURE_BOUND || *value > MAX_TEMPERATURE_BOUND {
            Err(ZclStatus::InvalidValue)
        } else {
            Ok(())
        }
    }
}

impl MaxMeasuredValue {
    pub fn new(value: i16) -> (r: Self)
        ensures
            r.value == value,
    {
        MaxMeasuredValue { value }
    }

    pub open spec fn spec_attribute(&self) -> AttributeView {
        AttributeView {
            identifier: 0x0002,
            access: AttributeAccess { read: true, write: false, report: false, scene: false },
            value: ZclDataView::Int16(self.value),
            range: Some((MIN_TEMPERATURE_BOUND as i128, MAX_TEMPERATURE_BOUND as i128)),
            reporting: None,
        }
    }

    /// The attribute as the cluster library holds it.
    pub fn attribute(&self) -> (r: ZclAttribute)
        ensures
            r.spec_view() == self.spec_attribute(),
    {
        ZclAttribute::new(
            0x0002,
            AttributeAccess::read_only(),
            Some((MIN_TEMPERATURE_BOUND as i128, MAX_TEMPERATURE_BOUND as i128)),
            ZclData::Int16(self.value),
        )
    }
}

impl Attribute<u16> for Tolerance {
    fn get_value(&self) -> (r: u16)
        ensures
            r == self.value,
    {
        self.value
    }

    /// Takes a tolerance up to 0x8000; refuses a larger one with
    /// `InvalidValue` and keeps its own.
    fn set_value(&mut self, value: u16) -> (r: Result<(), ZclStatus>)
        ensures
            value <= MAX_TOLERANCE ==> r is Ok && final(self).value == value,
            value > MAX_TOLERANCE ==> r == Err::<(), ZclStatus>(ZclStatus::InvalidValue) && final(self).value
                == old(self).value,
    {
        self.validate_value(&value)?;
        self.value = value;
        Ok(())
    }

    /// A tolerance up to 0x8000 passes; a larger one is an invalid value.
    fn validate_value(&self, value: &u16) -> (r: Result<(), ZclStatus>)
        ensures
            (*value <= MAX_TOLERANCE) <==> r is Ok,
            r is Err ==> r == Err::<(), ZclStatus>(ZclStatus::InvalidValue),
    {
        if *value > MAX_TOLERANCE {
            Err(ZclStatus::InvalidValue)
        } else {
            Ok(())
        }
    }
}

impl Tolerance {
    pub fn new(value: u16) -> (r: Self)
        ensures
            r.value == value,
    {
        Tolerance { value }
    }

    pub open spec fn spec_attribute(&self) -> AttributeView {
        AttributeView {
            identifier: 0x0004,
            access: AttributeAccess { read: true, write: false, report: true, scene: false },
            value: ZclDataView::UInt16(self.value),
            range: Some((0, MAX_TOLERANCE as i128)),
            reporting: Some(
                ReportingView { default: (0x0, 0xffff), current: (0x0, 0xffff), reportable_change: None, last_reported_on: None },
            ),
        }
    }

    /// The attribute as the cluster library holds it.
    pub fn attribute(&self) -> (r: ZclAttribute)
        ensures
            r.spec_view() == self.spec_attribute(),
    {
        let mut a = ZclAttribute::new(
            0x0004,
            AttributeAccess::read_report(),
            Some((0, MAX_TOLERANCE as i128)),
            ZclData::UInt16(self.value),
        );
        a.reporting = Some(ReportedAttributeIntervalsConfig::new((0x0, 0xffff), None));
        a
    }
}

/// A temperature sensor's cluster.
pub struct Temperature {
    pub measured_value: MeasuredValue,
    pub min_measured_value: MinMeasuredValue,
    pub max_measured_value: MaxMeasuredValue,
    pub tolerance: Tolerance,
}

impl Temperature {
    /// The cluster's attributes as the cluster library holds them.
    pub fn zcl_cluster(&self) -> (r: ZclCluster)
        ensures
            r.identifier == 0x0402,
            r.cluster_type == ClusterType::Server,
            r.spec_attrs() == map![
                0x0000u16 => self.measured_value.spec_attribute(),
                0x0001u16 => self.min_measured_value.spec_attribute(),
                0x0002u16 => self.max_measured_value.spec_attribute(),
                0x0004u16 => self.tolerance.spec_attribute(),
            ],
    {
        let mut c = ZclCluster::new(0x0402, ClusterType::Server);
        let _ = c.add_attribute(self.measured_value.attribute());
        let _ = c.add_attribute(self.min_measured_value.attribute());
        let _ = c.add_attribute(self.max_measured_value.attribute());
        let _ = c.add_attribute(self.tolerance.attribute());
        proof {
            assert(c.spec_attrs() =~= map![
                0x0000u16 => self.measured_value.spec_attribute(),
                0x0001u16 => self.min_measured_value.spec_attribute(),
                0x0002u16 => self.max_measured_value.spec_attribute(),
                0x0004u16 => self.tolerance.spec_attribute(),
            ]);
        }
        c
    }
}

} // verus!
