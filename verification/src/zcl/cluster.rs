//! Clusters and their attributes: reading, writing, reporting and listing
//! them. Instants are milliseconds since start-up.
use vstd::prelude::*;

use crate::collections::{HashMap, Vec};
use crate::zcl::command::{
    ReportingConfigurationAttributeStatus,
    AttributeReadReportingConfigurationRecord, AttributeReportingConfigurationDirection,
    AttributeReportingConfigurationRecord,
    AttributeStatusRecord, ConfigureReportingCommand, DiscoverAttributeRecord, ReadAttributesCommand,
    ReadAttributesStatusRecord, ReadReportingConfigurationCommand, WriteAttributeStatusRecord,
    WriteAttributesCommand, MAX_COMMAND_ITEMS,
};
use crate::zcl::types::{spec_int_value, ZclData, ZclDataView, ZclStatus};

verus! {

/// What may be done with an attribute.
#[derive(Clone, Copy, Debug, PartialEq, Eq, Structural)]
pub struct AttributeAccess {
    pub read: bool,
    pub write: bool,
    pub report: bool,
    pub scene: bool,
}

impl AttributeAccess {
    /// Every access.
    pub fn all() -> (r: AttributeAccess)
        ensures
            r == (AttributeAccess { read: true, write: true, report: true, scene: true }),
    {
        AttributeAccess { read: true, write: true, report: true, scene: true }
    }

    /// Reading only.
    pub fn read_only() -> (r: AttributeAccess)
        ensures
            r == (AttributeAccess { read: true, write: false, report: false, scene: false }),
    {
        AttributeAccess { read: true, write: false, report: false, scene: false }
    }

    /// Reading and reporting.
    pub fn read_report() -> (r: AttributeAccess)
        ensures
            r == (AttributeAccess { read: true, write: false, report: true, scene: false }),
    {
        AttributeAccess { read: true, write: false, report: true, scene: false }
    }

    /// Reading and writing.
    pub fn read_write() -> (r: AttributeAccess)
        ensures
            r == (AttributeAccess { read: true, write: true, report: false, scene: false }),
    {
        AttributeAccess { read: true, write: true, report: false, scene: false }
    }

    /// Reading, writing and reporting.
    pub fn read_write_report() -> (r: AttributeAccess)
        ensures
            r == (AttributeAccess { read: true, write: true, report: true, scene: false }),
    {
        AttributeAccess { read: true, write: true, report: true, scene: false }
    }
}

impl Default for AttributeAccess {
    fn default() -> (r: Self)
        ensures
            r == (AttributeAccess { read: false, write: false, report: false, scene: false }),
    {
        AttributeAccess { read: false, write: false, report: false, scene: false }
    }
}

/// An attribute that holds a value of type `T`: its value, and the check a
/// new value must pass to be taken.
pub trait Attribute<T> {
    fn get_value(&self) -> T;

    fn set_value(&mut self, value: T) -> Result<(), ZclStatus>;

    fn validate_value(&self, value: &T) -> Result<(), ZclStatus>;
}

/// Whether a cluster serves or uses its attributes.
#[derive(Clone, Copy, Debug, PartialEq, Eq, Structural)]
pub enum ClusterType {
    Server,
    Client,
}

pub const MAX_CLUSTERS_PER_APPLICATION: usize = 8;

pub const MAX_ATTRIBUTES_PER_CLUSTER: usize = 32;

/// When an attribute is reported: the default and the current intervals
/// (minimum, maximum, in seconds), the change worth a report, and when it
/// was last reported.
pub struct ReportedAttributeIntervalsConfig {
    pub default: (u16, u16),
    pub current: (u16, u16),
    pub reportable_change: Option<ZclData>,
    pub last_reported_on: Option<u64>,
}

impl ReportedAttributeIntervalsConfig {
    /// A configuration at its default intervals, never reported.
    pub fn new(default: (u16, u16), reportable_change: Option<ZclData>) -> (r: Self)
        ensures
            r.default == default,
            r.current == default,
            r.reportable_change == reportable_change,
            r.last_reported_on is None,
    {
        ReportedAttributeIntervalsConfig { default, current: default, reportable_change, last_reported_on: None }
    }

    /// Sets the intervals and the change. A minimum above the maximum is
    /// refused with `InvalidValue`, except the pair (0xffff, 0), which is
    /// taken as it is.
    pub fn set_values(&mut self, min: u16, max: u16, reportable_change: Option<ZclData>) -> (r: Result<(), ZclStatus>)
        ensures
            final(self).default == old(self).default,
            final(self).last_reported_on == old(self).last_reported_on,
            (min > max && !(max == 0 && min == 0xffff)) ==> r == Err::<(), ZclStatus>(ZclStatus::InvalidValue)
                && final(self).current == old(self).current && final(self).reportable_change == old(self).reportable_change,
            !(min > max && !(max == 0 && min == 0xffff)) ==> r is Ok && final(self).current == (min, max)
                && final(self).reportable_change == reportable_change,
    {
        if max == 0x0 && min == 0xffff {
            self.current = self.default;
        } else if min > max {
            return Err(ZclStatus::InvalidValue);
        }
        self.current = (min, max);
        self.reportable_change = reportable_change;
        Ok(())
    }

    /// Whether the attribute is due for a report at `now`: never with a
    /// maximum interval of 0xffff; the first time; then once more than the
    /// minimum interval (in whole seconds) has passed since the last report.
    /// A report that is due is taken as made at `now`.
    pub fn should_report(&mut self, now: u64) -> (r: bool)
        requires
            old(self).last_reported_on matches Some(t) ==> t <= now,
        ensures
            final(self).default == old(self).default,
            final(self).current == old(self).current,
            final(self).reportable_change == old(self).reportable_change,
            r == (old(self).current.1 != 0xffff && match old(self).last_reported_on {
                None => true,
                Some(t) => (now - t) / 1000 > old(self).current.0,
            }),
            final(self).last_reported_on == (if r {
                Some(now)
            } else {
                old(self).last_reported_on
            }),
    {
        if self.current.1 == 0xffff {
            return false;
        }
        match self.last_reported_on {
            None => {
                self.last_reported_on = Some(now);
                true
            },
            Some(t) => {
                if (now - t) / 1000 > self.current.0 as u64 {
                    self.last_reported_on = Some(now);
                    true
                } else {
                    false
                }
            },
        }
    }
}

/// An attribute of a cluster: its identifier, its access, its value, the
/// range its value must lie in where it is a number, and how it is
/// reported where it is.
pub struct ZclAttribute {
    pub identifier: u16,
    pub access: AttributeAccess,
    pub value: ZclData,
    pub range: Option<(i128, i128)>,
    pub reporting: Option<ReportedAttributeIntervalsConfig>,
}

/// What the reporting of an attribute holds: the default and the current
/// intervals, the change worth a report, and when it was last reported.
pub ghost struct ReportingView {
    pub default: (u16, u16),
    pub current: (u16, u16),
    pub reportable_change: Option<ZclDataView>,
    pub last_reported_on: Option<u64>,
}

/// What an attribute holds.
pub ghost struct AttributeView {
    pub identifier: u16,
    pub access: AttributeAccess,
    pub value: ZclDataView,
    pub range: Option<(i128, i128)>,
    pub reporting: Option<ReportingView>,
}

/// The view of a value that may be missing.
pub open spec fn opt_view(o: Option<ZclData>) -> Option<ZclDataView> {
    match o {
        Some(d) => Some(d.spec_view()),
        None => None,
    }
}

/// Why a value cannot be taken by an attribute, if it cannot: a value of
/// another data type, or a number out of the attribute's range.
pub open spec fn spec_validate(a: AttributeView, data: ZclDataView) -> Option<ZclStatus> {
    if data.spec_tag() != a.value.spec_tag() {
        Some(ZclStatus::InvalidDataType)
    } else {
        match (a.range, spec_int_value(data)) {
            (Some((lo, hi)), Some(x)) => if x < lo || x > hi {
                Some(ZclStatus::InvalidValue)
            } else {
                None
            },
            _ => None,
        }
    }
}

impl ZclAttribute {
    pub open spec fn spec_view(&self) -> AttributeView {
        AttributeView {
            identifier: self.identifier,
            access: self.access,
            value: self.value.spec_view(),
            range: self.range,
            reporting: match self.reporting {
                Some(c) => Some(
                    ReportingView {
                        default: c.default,
                        current: c.current,
                        reportable_change: opt_view(c.reportable_change),
                        last_reported_on: c.last_reported_on,
                    },
                ),
                None => None,
            },
        }
    }

    /// An attribute that is not reported.
    pub fn new(identifier: u16, access: AttributeAccess, range: Option<(i128, i128)>, value: ZclData) -> (r: ZclAttribute)
        ensures
            r.identifier == identifier,
            r.access == access,
            r.range == range,
            r.value == value,
            r.reporting is None,
    {
        ZclAttribute { identifier, access, value, range, reporting: None }
    }

    pub fn can_read(&self) -> (r: bool)
        ensures
            r == self.access.read,
    {
        self.access.read
    }

    pub fn can_write(&self) -> (r: bool)
        ensures
            r == self.access.write,
    {
        self.access.write
    }

    pub fn can_report(&self) -> (r: bool)
        ensures
            r == self.access.report,
    {
        self.access.report
    }

    pub fn can_scene(&self) -> (r: bool)
        ensures
            r == self.access.scene,
    {
        self.access.scene
    }

    /// The data type of the attribute's value.
    pub fn get_zcl_data_identifier(&self) -> (r: u8)
        ensures
            r == self.value.spec_view().spec_tag(),
    {
        self.value.tag()
    }

    /// A copy of the attribute's value.
    pub fn get_zcl_data(&self) -> (r: ZclData)
        ensures
            r.spec_view() == self.value.spec_view(),
    {
        self.value.duplicate()
    }

    /// Checks a value without taking it (see [`spec_validate`]).
    pub fn validate_from_zcl_data(&self, data: &ZclData) -> (r: Result<(), ZclStatus>)
        ensures
            r is Ok <==> spec_validate(self.spec_view(), data.spec_view()) is None,
            r matches Err(e) ==> spec_validate(self.spec_view(), data.spec_view()) == Some(e),
    {
        if data.tag() != self.value.tag() {
            return Err(ZclStatus::InvalidDataType);
        }
        match (self.range, data.int_value()) {
            (Some((lo, hi)), Some(x)) => if x < lo || x > hi {
                Err(ZclStatus::InvalidValue)
            } else {
                Ok(())
            },
            _ => Ok(()),
        }
    }

    /// Takes a value that passes the check, or refuses it and keeps its own.
    pub fn set_from_zcl_data(&mut self, data: &ZclData) -> (r: Result<(), ZclStatus>)
        ensures
            r is Ok <==> spec_validate(old(self).spec_view(), data.spec_view()) is None,
            r matches Err(e) ==> spec_validate(old(self).spec_view(), data.spec_view()) == Some(e)
                && final(self).spec_view() == old(self).spec_view(),
            r is Ok ==> final(self).spec_view() == (AttributeView { value: data.spec_view(), ..old(self).spec_view() }),
    {
        match self.validate_from_zcl_data(data) {
            Ok(()) => {
                self.value = data.duplicate();
                Ok(())
            },
            Err(e) => Err(e),
        }
    }

    /// Takes a value that passes the check (see
    /// [`ZclAttribute::set_from_zcl_data`]).
    pub fn set_value(&mut self, value: ZclData) -> (r: Result<(), ZclStatus>)
        ensures
            r is Ok <==> spec_validate(old(self).spec_view(), value.spec_view()) is None,
            r matches Err(e) ==> spec_validate(old(self).spec_view(), value.spec_view()) == Some(e)
                && final(self).spec_view() == old(self).spec_view(),
            r is Ok ==> final(self).spec_view() == (AttributeView { value: value.spec_view(), ..old(self).spec_view() }),
    {
        self.set_from_zcl_data(&value)
    }
}

/// A cluster: its identifier, its side and its attributes by identifier.
pub struct ZclCluster {
    pub identifier: u16,
    pub cluster_type: ClusterType,
    pub attributes: HashMap<u16, ZclAttribute, MAX_ATTRIBUTES_PER_CLUSTER>,
}

/// The attributes of a cluster, by identifier.
pub open spec fn attrs_view(m: HashMap<u16, ZclAttribute, MAX_ATTRIBUTES_PER_CLUSTER>) -> Map<u16, AttributeView> {
    Map::new(|k: u16| m.spec_has(k), |k: u16| m.spec_get(k)->Some_0.spec_view())
}

/// What reading the attribute `id` gives: unsupported where there is no
/// such attribute, a failure where it cannot be read, its value otherwise.
pub open spec fn spec_read_one(m: Map<u16, AttributeView>, id: u16) -> (ZclStatus, Option<ZclDataView>) {
    if !m.contains_key(id) {
        (ZclStatus::UnsupportedAttribute, None)
    } else if !m[id].access.read {
        (ZclStatus::Failure, None)
    } else {
        (ZclStatus::Success, Some(m[id].value))
    }
}

/// Whether a read record says what reading the attribute `id` gives.
pub open spec fn read_record_ok(m: Map<u16, AttributeView>, id: u16, rec: ReadAttributesStatusRecord) -> bool {
    let (st, data) = spec_read_one(m, id);
    &&& rec.identifier == id
    &&& rec.status == st
    &&& opt_view(rec.data) == data
}

/// What writing `data` to the attribute `id` gives, and the attributes
/// after it: unsupported where there is no such attribute, read-only where
/// it cannot be written, otherwise what the check says.
pub open spec fn spec_write_one(m: Map<u16, AttributeView>, id: u16, data: ZclDataView) -> (ZclStatus, Map<u16, AttributeView>) {
    if !m.contains_key(id) {
        (ZclStatus::UnsupportedAttribute, m)
    } else if !m[id].access.write {
        (ZclStatus::ReadOnly, m)
    } else {
        match spec_validate(m[id], data) {
            Some(e) => (e, m),
            None => (ZclStatus::Success, m.insert(id, AttributeView { value: data, ..m[id] })),
        }
    }
}

/// The writes of `recs`, one after the other: the statuses and the
/// attributes after them.
pub open spec fn spec_write_all(m: Map<u16, AttributeView>, recs: Seq<(u16, ZclDataView)>) -> (Seq<ZclStatus>, Map<u16, AttributeView>)
    decreases recs.len(),
{
    if recs.len() == 0 {
        (Seq::empty(), m)
    } else {
        let (st, m1) = spec_write_all(m, recs.drop_last());
        let (s, m2) = spec_write_one(m1, recs.last().0, recs.last().1);
        (st.push(s), m2)
    }
}

/// A write that succeeds is read back: reading a readable attribute then
/// gives the value written, and every other attribute reads as before. A
/// write that fails changes nothing.
pub proof fn lemma_read_after_write(m: Map<u16, AttributeView>, id: u16, data: ZclDataView, other: u16)
    ensures
        spec_write_one(m, id, data).0 == ZclStatus::Success && m[id].access.read ==> spec_read_one(
            spec_write_one(m, id, data).1,
            id,
        ) == (ZclStatus::Success, Some(data)),
        spec_write_one(m, id, data).0 == ZclStatus::Success && other != id ==> spec_read_one(
            spec_write_one(m, id, data).1,
            other,
        ) == spec_read_one(m, other),
        spec_write_one(m, id, data).0 != ZclStatus::Success ==> spec_write_one(m, id, data).1 == m,
{
}

/// A write command of one record does what writing that record does.
pub proof fn lemma_write_all_single(m: Map<u16, AttributeView>, id: u16, data: ZclDataView)
    ensures
        spec_write_all(m, seq![(id, data)]) == (seq![spec_write_one(m, id, data).0], spec_write_one(m, id, data).1),
{
    let recs = seq![(id, data)];
    assert(recs.drop_last() =~= Seq::<(u16, ZclDataView)>::empty());
    assert(spec_write_all(m, recs.drop_last()) == (Seq::<ZclStatus>::empty(), m));
    assert(recs.last() == (id, data));
    assert(Seq::<ZclStatus>::empty().push(spec_write_one(m, id, data).0) =~= seq![spec_write_one(m, id, data).0]);
}

/// Only the value of an attribute changes under writes, and never its data
/// type.
pub open spec fn same_but_value(a: AttributeView, b: AttributeView) -> bool {
    &&& b == (AttributeView { value: b.value, ..a })
    &&& b.value.spec_tag() == a.value.spec_tag()
}

/// Writes one after the other keep every attribute but its value, so the
/// check of each record gives the same status it gives on the attributes
/// before any write.
proof fn lemma_write_one_keeps(m: Map<u16, AttributeView>, id: u16, data: ZclDataView)
    ensures
        spec_write_one(m, id, data).1.dom() == m.dom(),
        forall|k: u16| #[trigger] m.contains_key(k) ==> same_but_value(m[k], spec_write_one(m, id, data).1[k]),
        forall|k: u16| k != id && m.contains_key(k) ==> #[trigger] spec_write_one(m, id, data).1[k] == m[k],
        spec_write_one(m, id, data).0 == ZclStatus::Success ==> spec_write_one(m, id, data).1[id].value == data,
{
    let m2 = spec_write_one(m, id, data).1;
    if spec_write_one(m, id, data).0 == ZclStatus::Success {
        assert(m2.dom() =~= m.dom());
    }
}

/// The law of a write command: each record gets the status its check gives
/// on the attributes as they were (unsupported where there is no such
/// attribute, read-only where it cannot be written, the validation's
/// otherwise); only values change; an attribute that no record names is
/// left as it was; and an attribute written with success by its last
/// record holds that record's value.
pub proof fn lemma_write_all_laws(m: Map<u16, AttributeView>, recs: Seq<(u16, ZclDataView)>)
    ensures
        spec_write_all(m, recs).0.len() == recs.len(),
        forall|i: int| 0 <= i < recs.len() ==> #[trigger] spec_write_all(m, recs).0[i] == spec_check_one(m, recs[i].0, recs[i].1),
        spec_write_all(m, recs).1.dom() == m.dom(),
        forall|k: u16| #[trigger] m.contains_key(k) ==> same_but_value(m[k], spec_write_all(m, recs).1[k]),
        forall|k: u16| m.contains_key(k) && (forall|i: int| 0 <= i < recs.len() ==> recs[i].0 != k) ==> #[trigger] spec_write_all(m, recs).1[k] == m[k],
        forall|i: int| 0 <= i < recs.len() && spec_write_all(m, recs).0[i] == ZclStatus::Success && (forall|j: int|
            i < j < recs.len() ==> recs[j].0 != recs[i].0) ==> #[trigger] spec_write_all(m, recs).1[recs[i].0].value == recs[i].1,
    decreases recs.len(),
{
    if recs.len() > 0 {
        let r1 = recs.drop_last();
        lemma_write_all_laws(m, r1);
        let (st1, m1) = spec_write_all(m, r1);
        let (id, d) = recs.last();
        lemma_write_one_keeps(m1, id, d);
        let (s, m2) = spec_write_one(m1, id, d);
        let st = st1.push(s);
        assert(spec_write_all(m, recs) == (st, m2));
        assert(spec_check_one(m1, id, d) == spec_check_one(m, id, d)) by {
            if m.contains_key(id) {
                assert(same_but_value(m[id], m1[id]));
            }
        }
        assert forall|i: int| 0 <= i < recs.len() implies #[trigger] st[i] == spec_check_one(m, recs[i].0, recs[i].1) by {
            if i < r1.len() {
                assert(r1[i] == recs[i]);
            }
        }
        assert forall|k: u16| #[trigger] m.contains_key(k) implies same_but_value(m[k], m2[k]) by {
            assert(same_but_value(m[k], m1[k]));
            assert(same_but_value(m1[k], m2[k]));
        }
        assert forall|k: u16| m.contains_key(k) && (forall|i: int| 0 <= i < recs.len() ==> recs[i].0 != k) implies #[trigger] m2[k] == m[k] by {
            assert forall|i: int| 0 <= i < r1.len() implies r1[i].0 != k by {
                assert(r1[i] == recs[i]);
            }
            assert(recs[recs.len() - 1].0 != k);
        }
        assert forall|i: int| 0 <= i < recs.len() && st[i] == ZclStatus::Success && (forall|j: int|
            i < j < recs.len() ==> recs[j].0 != recs[i].0) implies #[trigger] m2[recs[i].0].value == recs[i].1 by {
            if i < r1.len() {
                assert(r1[i] == recs[i]);
                assert forall|j: int| i < j < r1.len() implies r1[j].0 != r1[i].0 by {
                    assert(r1[j] == recs[j]);
                }
                assert(recs[recs.len() - 1].0 != recs[i].0);
                assert(m1[r1[i].0].value == r1[i].1);
            }
        }
    }
}

/// The law of an undivided write: where every check succeeds, each
/// attribute that a record names holds the value of the last record that
/// names it.
pub proof fn lemma_undivided_writes_all(m: Map<u16, AttributeView>, recs: Seq<(u16, ZclDataView)>)
    requires
        forall|i: int| 0 <= i < recs.len() ==> #[trigger] spec_check_one(m, recs[i].0, recs[i].1) == ZclStatus::Success,
    ensures
        forall|i: int| 0 <= i < recs.len() && (forall|j: int| i < j < recs.len() ==> recs[j].0 != recs[i].0)
            ==> #[trigger] spec_write_all(m, recs).1[recs[i].0].value == recs[i].1,
{
    lemma_write_all_laws(m, recs);
    assert forall|i: int| 0 <= i < recs.len() && (forall|j: int| i < j < recs.len() ==> recs[j].0 != recs[i].0)
        implies #[trigger] spec_write_all(m, recs).1[recs[i].0].value == recs[i].1 by {
        assert(spec_write_all(m, recs).0[i] == spec_check_one(m, recs[i].0, recs[i].1));
    }
}

/// The statuses of reading and writing one attribute: a read of an
/// attribute that is not there is unsupported, of one that cannot be read a
/// failure, otherwise a success with its value; a write of an attribute
/// that is not there is unsupported, of one that cannot be written
/// read-only, of a value of another data type an invalid data type, of a
/// number outside the attribute's range an invalid value, otherwise a
/// success.
pub proof fn lemma_attribute_statuses(m: Map<u16, AttributeView>, id: u16, data: ZclDataView)
    ensures
        !m.contains_key(id) ==> spec_read_one(m, id) == (ZclStatus::UnsupportedAttribute, None::<ZclDataView>),
        m.contains_key(id) && !m[id].access.read ==> spec_read_one(m, id) == (ZclStatus::Failure, None::<ZclDataView>),
        m.contains_key(id) && m[id].access.read ==> spec_read_one(m, id) == (ZclStatus::Success, Some(m[id].value)),
        !m.contains_key(id) ==> spec_check_one(m, id, data) == ZclStatus::UnsupportedAttribute,
        m.contains_key(id) && !m[id].access.write ==> spec_check_one(m, id, data) == ZclStatus::ReadOnly,
        m.contains_key(id) && m[id].access.write && data.spec_tag() != m[id].value.spec_tag() ==> spec_check_one(m, id, data)
            == ZclStatus::InvalidDataType,
        m.contains_key(id) && m[id].access.write && data.spec_tag() == m[id].value.spec_tag() ==> (spec_check_one(
            m,
            id,
            data,
        ) == ZclStatus::InvalidValue <==> (m[id].range matches Some((lo, hi)) && spec_int_value(data) matches Some(
            x,
        ) && (x < lo || x > hi))),
        m.contains_key(id) && m[id].access.write && data.spec_tag() == m[id].value.spec_tag() ==> (spec_check_one(
            m,
            id,
            data,
        ) == ZclStatus::Success || spec_check_one(m, id, data) == ZclStatus::InvalidValue),
{
}

/// The records of a write command.
pub open spec fn write_recs(cmd: &WriteAttributesCommand) -> Seq<(u16, ZclDataView)> {
    Seq::new(cmd.attributes@.len(), |i: int| (cmd.attributes@[i].identifier, cmd.attributes@[i].data.spec_view()))
}

/// The status a write of `data` to `id` gets without anything written (the
/// check depends on nothing a write changes).
pub open spec fn spec_check_one(m: Map<u16, AttributeView>, id: u16, data: ZclDataView) -> ZclStatus {
    spec_write_one(m, id, data).0
}

/// Attribute identifiers in ascending order, from `start` on, at most
/// `maximum` of them, with none of the map's left out in between.
pub open spec fn spec_discovered(keys: Set<u16>, start: u16, maximum: u8, r: Seq<u16>) -> bool {
    &&& r.len() <= maximum
    &&& forall|i: int, j: int| 0 <= i < j < r.len() ==> r[i] < r[j]
    &&& forall|i: int| 0 <= i < r.len() ==> keys.contains(#[trigger] r[i]) && r[i] >= start
    &&& forall|k: u16|
        keys.contains(k) && k >= start && !r.contains(k) ==> r.len() == maximum && (r.len() == 0 || k
            > r.last())
}

/// What configuring the reporting of one attribute gives, and the
/// attributes after it: unsupported for reports received, unreportable for
/// an attribute that is not reported, otherwise what setting the intervals
/// gives.
pub open spec fn spec_config_one(
    m: Map<u16, AttributeView>,
    direction: AttributeReportingConfigurationDirection,
    id: u16,
    min: u16,
    max: u16,
    change: Option<ZclDataView>,
) -> (ZclStatus, Map<u16, AttributeView>) {
    if direction != AttributeReportingConfigurationDirection::Report {
        (ZclStatus::UnsupportedAttribute, m)
    } else if !(m.contains_key(id) && m[id].reporting is Some) {
        (ZclStatus::UnreportableAttribute, m)
    } else if min > max && !(max == 0 && min == 0xffff) {
        (ZclStatus::InvalidValue, m)
    } else {
        (ZclStatus::Success, m.insert(id, AttributeView {
            reporting: Some(ReportingView { current: (min, max), reportable_change: change, ..m[id].reporting->Some_0 }),
            ..m[id]
        }))
    }
}

/// The records of a reporting configuration command.
pub open spec fn config_recs(cmd: &ConfigureReportingCommand) -> Seq<(AttributeReportingConfigurationDirection, u16, u16, u16, Option<ZclDataView>)> {
    Seq::new(
        cmd.configuration_records@.len(),
        |i: int|
            {
                let r = cmd.configuration_records@[i];
                (
                    r.direction,
                    r.identifier,
                    match r.minimum_reporting_interval {
                        Some(v) => v,
                        None => 0,
                    },
                    match r.maximum_reporting_interval {
                        Some(v) => v,
                        None => 0,
                    },
                    opt_view(r.reportable_change),
                )
            },
    )
}

/// The configurations of `recs`, one after the other.
pub open spec fn spec_config_all(
    m: Map<u16, AttributeView>,
    recs: Seq<(AttributeReportingConfigurationDirection, u16, u16, u16, Option<ZclDataView>)>,
) -> (Seq<ZclStatus>, Map<u16, AttributeView>)
    decreases recs.len(),
{
    if recs.len() == 0 {
        (Seq::empty(), m)
    } else {
        let (st, m1) = spec_config_all(m, recs.drop_last());
        let r = recs.last();
        let (s, m2) = spec_config_one(m1, r.0, r.1, r.2, r.3, r.4);
        (st.push(s), m2)
    }
}

impl ReportedAttributeIntervalsConfig {
    /// A copy of the configuration.
    pub fn duplicate(&self) -> (r: Self)
        ensures
            r.default == self.default,
            r.current == self.current,
            opt_view(r.reportable_change) == opt_view(self.reportable_change),
            r.last_reported_on == self.last_reported_on,
    {
        ReportedAttributeIntervalsConfig {
            default: self.default,
            current: self.current,
            reportable_change: match &self.reportable_change {
                Some(d) => Some(d.duplicate()),
                None => None,
            },
            last_reported_on: self.last_reported_on,
        }
    }
}

/// A copy of a value that may be missing.
fn dup_opt(o: &Option<ZclData>) -> (r: Option<ZclData>)
    ensures
        opt_view(r) == opt_view(*o),
{
    match o {
        Some(d) => Some(d.duplicate()),
        None => None,
    }
}

/// What a read gives for the identifiers `ids` (see [`spec_read_one`]).
pub open spec fn reads_ok(m: Map<u16, AttributeView>, ids: Seq<u16>, r: Seq<ReadAttributesStatusRecord>) -> bool {
    r.len() == ids.len() && forall|i: int| 0 <= i < r.len() ==> read_record_ok(m, ids[i], #[trigger] r[i])
}

/// What writes one after the other give (see [`spec_write_all`]).
pub open spec fn writes_ok(
    m0: Map<u16, AttributeView>,
    recs: Seq<(u16, ZclDataView)>,
    r: Seq<WriteAttributeStatusRecord>,
    m1: Map<u16, AttributeView>,
) -> bool {
    let (st, m) = spec_write_all(m0, recs);
    &&& r.len() == recs.len()
    &&& forall|i: int| 0 <= i < r.len() ==> #[trigger] r[i] == (WriteAttributeStatusRecord { status: st[i], identifier: recs[i].0 })
    &&& m1 == m
}

/// What undivided writes give: each the status of its check on `m0`; all
/// written where all succeed, none otherwise.
pub open spec fn undivided_ok(
    m0: Map<u16, AttributeView>,
    recs: Seq<(u16, ZclDataView)>,
    r: Seq<WriteAttributeStatusRecord>,
    m1: Map<u16, AttributeView>,
) -> bool {
    &&& r.len() == recs.len()
    &&& forall|i: int| 0 <= i < r.len() ==> #[trigger] r[i] == (WriteAttributeStatusRecord { status: spec_check_one(m0, recs[i].0, recs[i].1), identifier: recs[i].0 })
    &&& (forall|i: int| 0 <= i < r.len() ==> #[trigger] r[i].status == ZclStatus::Success) ==> m1 == spec_write_all(m0, recs).1
    &&& !(forall|i: int| 0 <= i < r.len() ==> #[trigger] r[i].status == ZclStatus::Success) ==> m1 == m0
}

/// What reporting configurations one after the other give (see
/// [`spec_config_all`]).
pub open spec fn configs_ok(
    m0: Map<u16, AttributeView>,
    cmd: &ConfigureReportingCommand,
    r: Seq<AttributeStatusRecord>,
    m1: Map<u16, AttributeView>,
) -> bool {
    let (st, m) = spec_config_all(m0, config_recs(cmd));
    &&& r.len() == cmd.configuration_records@.len()
    &&& forall|i: int| 0 <= i < r.len() ==> #[trigger] r[i] == (AttributeStatusRecord {
        status: st[i],
        direction: cmd.configuration_records@[i].direction,
        identifier: cmd.configuration_records@[i].identifier,
    })
    &&& m1 == m
}

/// Whether the records of a reporting configuration command give the
/// intervals of every report.
pub open spec fn config_cmd_complete(cmd: &ConfigureReportingCommand) -> bool {
    forall|i: int|
        0 <= i < cmd.configuration_records@.len() && #[trigger] cmd.configuration_records@[i].direction
            == AttributeReportingConfigurationDirection::Report ==> cmd.configuration_records@[i].minimum_reporting_interval is Some
            && cmd.configuration_records@[i].maximum_reporting_interval is Some
}

/// Whether a record read of a reporting configuration says what it should.
pub open spec fn read_config_record_ok(
    m: Map<u16, AttributeView>,
    q: ReportingConfigurationAttributeStatus,
    rec: AttributeReadReportingConfigurationRecord,
) -> bool {
    let found = q.direction == AttributeReportingConfigurationDirection::Report && m.contains_key(q.identifier)
        && m[q.identifier].reporting is Some;
    &&& rec.direction == q.direction
    &&& rec.identifier == q.identifier
    &&& rec.reportable_change is None
    &&& rec.timeout_period is None
    &&& found ==> rec.status == ZclStatus::Success && rec.data_type == Some(m[q.identifier].value.spec_tag())
        && rec.minimum_reporting_interval == Some(m[q.identifier].reporting->Some_0.current.0)
        && rec.maximum_reporting_interval == Some(m[q.identifier].reporting->Some_0.current.1)
    &&& !found ==> rec.status == ZclStatus::UnsupportedAttribute && rec.data_type is None
        && rec.minimum_reporting_interval is None && rec.maximum_reporting_interval is None
}

/// What reading reporting configurations gives.
pub open spec fn read_configs_ok(
    m: Map<u16, AttributeView>,
    qs: Seq<ReportingConfigurationAttributeStatus>,
    r: Seq<AttributeReadReportingConfigurationRecord>,
) -> bool {
    r.len() == qs.len() && forall|i: int| 0 <= i < r.len() ==> read_config_record_ok(m, qs[i], #[trigger] r[i])
}

/// What listing attributes gives (see [`spec_discovered`]).
pub open spec fn discover_ok(m: Map<u16, AttributeView>, start: u16, maximum: u8, r: Seq<DiscoverAttributeRecord>) -> bool {
    &&& spec_discovered(m.dom(), start, maximum, r.map_values(|d: DiscoverAttributeRecord| d.identifier))
    &&& forall|i: int| 0 <= i < r.len() ==> #[trigger] r[i].data_type == m[r[i].identifier].value.spec_tag()
}

impl ZclCluster {
    pub open spec fn spec_attrs(&self) -> Map<u16, AttributeView> {
        attrs_view(self.attributes)
    }

    /// A cluster without attributes.
    pub fn new(identifier: u16, cluster_type: ClusterType) -> (r: ZclCluster)
        ensures
            r.identifier == identifier,
            r.cluster_type == cluster_type,
            r.spec_attrs() == Map::<u16, AttributeView>::empty(),
            r.attributes.entries().len() == 0,
    {
        let r = ZclCluster { identifier, cluster_type, attributes: HashMap::new() };
        proof {
            assert(r.spec_attrs() =~= Map::<u16, AttributeView>::empty());
        }
        r
    }

    /// Adds an attribute under its identifier, or replaces the one there;
    /// a cluster with no room left refuses a new identifier and gives the
    /// attribute back.
    pub fn add_attribute(&mut self, attr: ZclAttribute) -> (r: Result<(), ZclAttribute>)
        ensures
            final(self).identifier == old(self).identifier,
            final(self).cluster_type == old(self).cluster_type,
            r is Ok <==> (old(self).spec_attrs().contains_key(attr.identifier) || old(self).attributes.entries().len() < MAX_ATTRIBUTES_PER_CLUSTER),
            r is Ok ==> final(self).spec_attrs() == old(self).spec_attrs().insert(attr.identifier, attr.spec_view()),
            r is Err ==> final(self).spec_attrs() == old(self).spec_attrs(),
            final(self).attributes.entries().len() <= old(self).attributes.entries().len() + 1,
    {
        let id = attr.identifier;
        let ghost v = attr.spec_view();
        match self.attributes.insert(id, attr) {
            Ok(_) => {
                proof {
                    assert(self.spec_attrs() =~= old(self).spec_attrs().insert(id, v));
                }
                Ok(())
            },
            Err((_, a)) => Err(a),
        }
    }

    /// Reads the attributes `cmd` names, in order (see [`spec_read_one`]).
    pub fn read_attributes(&self, cmd: &ReadAttributesCommand) -> (r: Vec<ReadAttributesStatusRecord, MAX_COMMAND_ITEMS>)
        ensures
            reads_ok(self.spec_attrs(), cmd.attributes@, r@),
            r@.len() == cmd.attributes@.len(),
            forall|i: int| 0 <= i < r@.len() ==> read_record_ok(self.spec_attrs(), cmd.attributes@[i], #[trigger] r@[i]),
    {
        let mut out: Vec<ReadAttributesStatusRecord, MAX_COMMAND_ITEMS> = Vec::new();
        let n = cmd.attributes.len();
        let mut i: usize = 0;
        while i < n
            invariant
                n == cmd.attributes@.len(),
                n <= MAX_COMMAND_ITEMS,
                i <= n,
                out@.len() == i,
                forall|j: int| 0 <= j < i ==> read_record_ok(self.spec_attrs(), cmd.attributes@[j], #[trigger] out@[j]),
            decreases n - i,
        {
            let id = *cmd.attributes.get(i);
            let rec = match self.attributes.get(&id) {
                None => ReadAttributesStatusRecord { identifier: id, status: ZclStatus::UnsupportedAttribute, data: None },
                Some(a) => if a.can_read() {
                    ReadAttributesStatusRecord { identifier: id, status: ZclStatus::Success, data: Some(a.get_zcl_data()) }
                } else {
                    ReadAttributesStatusRecord { identifier: id, status: ZclStatus::Failure, data: None }
                },
            };
            proof {
                assert(read_record_ok(self.spec_attrs(), id, rec));
            }
            let ghost before = out@;
            let _ = out.push(rec);
            proof {
                assert(forall|j: int| 0 <= j < i ==> out@[j] == before[j]);
            }
            i = i + 1;
        }
        out
    }

    /// Writes one value (see [`spec_write_one`]).
    fn write_one(&mut self, id: u16, data: &ZclData) -> (r: ZclStatus)
        ensures
            final(self).identifier == old(self).identifier,
            final(self).cluster_type == old(self).cluster_type,
            (r, final(self).spec_attrs()) == spec_write_one(old(self).spec_attrs(), id, data.spec_view()),
    {
        let (can_write, placeholder) = match self.attributes.get(&id) {
            None => return ZclStatus::UnsupportedAttribute,
            Some(a) => (a.can_write(), ZclAttribute { identifier: a.identifier, access: a.access, value: ZclData::Null, range: a.range, reporting: None }),
        };
        if !can_write {
            return ZclStatus::ReadOnly;
        }
        let ghost m0 = self.spec_attrs();
        let mut attr = match self.attributes.insert(id, placeholder) {
            Ok(Some(a)) => a,
            _ => {
                proof {
                    assert(false);
                }
                return ZclStatus::Failure;
            },
        };
        proof {
            assert(attr.spec_view() == m0[id]);
        }
        let status = match attr.set_from_zcl_data(data) {
            Ok(()) => ZclStatus::Success,
            Err(e) => e,
        };
        let ghost v = attr.spec_view();
        let _ = self.attributes.insert(id, attr);
        proof {
            assert(self.spec_attrs() =~= m0.insert(id, v));
            if status != ZclStatus::Success {
                assert(m0.insert(id, v) =~= m0);
            }
        }
        status
    }

    /// Writes the values `cmd` lists, one after the other (see
    /// [`spec_write_all`]).
    pub fn write_attributes(&mut self, cmd: &WriteAttributesCommand) -> (r: Vec<WriteAttributeStatusRecord, MAX_COMMAND_ITEMS>)
        ensures
            writes_ok(old(self).spec_attrs(), write_recs(cmd), r@, final(self).spec_attrs()),
            final(self).identifier == old(self).identifier,
            final(self).cluster_type == old(self).cluster_type,
            ({
                let (st, m) = spec_write_all(old(self).spec_attrs(), write_recs(cmd));
                &&& r@.len() == cmd.attributes@.len()
                &&& forall|i: int| 0 <= i < r@.len() ==> #[trigger] r@[i] == WriteAttributeStatusRecord {
                    status: st[i],
                    identifier: cmd.attributes@[i].identifier,
                }
                &&& final(self).spec_attrs() == m
            }),
    {
        let mut out: Vec<WriteAttributeStatusRecord, MAX_COMMAND_ITEMS> = Vec::new();
        let n = cmd.attributes.len();
        let ghost recs = write_recs(cmd);
        let ghost m0 = self.spec_attrs();
        let mut i: usize = 0;
        proof {
            assert(recs.subrange(0, 0) =~= Seq::<(u16, ZclDataView)>::empty());
        }
        while i < n
            invariant
                n == cmd.attributes@.len(),
                n <= MAX_COMMAND_ITEMS,
                i <= n,
                recs == write_recs(cmd),
                self.identifier == old(self).identifier,
                self.cluster_type == old(self).cluster_type,
                out@.len() == i,
                ({
                    let (st, m) = spec_write_all(m0, recs.subrange(0, i as int));
                    &&& forall|j: int| 0 <= j < i ==> #[trigger] out@[j] == WriteAttributeStatusRecord {
                        status: st[j],
                        identifier: cmd.attributes@[j].identifier,
                    }
                    &&& self.spec_attrs() == m
                    &&& st.len() == i
                }),
            decreases n - i,
        {
            let rec = cmd.attributes.get(i);
            let status = self.write_one(rec.identifier, &rec.data);
            let _ = out.push(WriteAttributeStatusRecord { status, identifier: rec.identifier });
            proof {
                let next = recs.subrange(0, i + 1);
                assert(next.drop_last() =~= recs.subrange(0, i as int));
                assert(next.last() == recs[i as int]);
            }
            i = i + 1;
        }
        proof {
            assert(recs.subrange(0, n as int) =~= recs);
        }
        out
    }

    /// Writes the values `cmd` lists all together or not at all: each gets
    /// the status its check gives on the attributes as they are; only where
    /// all succeed are they written, one after the other.
    pub fn write_attributes_undivided(&mut self, cmd: &WriteAttributesCommand) -> (r: Vec<WriteAttributeStatusRecord, MAX_COMMAND_ITEMS>)
        ensures
            undivided_ok(old(self).spec_attrs(), write_recs(cmd), r@, final(self).spec_attrs()),
            final(self).identifier == old(self).identifier,
            final(self).cluster_type == old(self).cluster_type,
            r@.len() == cmd.attributes@.len(),
            forall|i: int| 0 <= i < r@.len() ==> #[trigger] r@[i] == (WriteAttributeStatusRecord {
                status: spec_check_one(old(self).spec_attrs(), cmd.attributes@[i].identifier, cmd.attributes@[i].data.spec_view()),
                identifier: cmd.attributes@[i].identifier,
            }),
            ((forall|i: int| 0 <= i < r@.len() ==> #[trigger] r@[i].status == ZclStatus::Success)
                ==> final(self).spec_attrs() == spec_write_all(old(self).spec_attrs(), write_recs(cmd)).1),
            (!(forall|i: int| 0 <= i < r@.len() ==> #[trigger] r@[i].status == ZclStatus::Success)
                ==> final(self).spec_attrs() == old(self).spec_attrs()),
    {
        let mut out: Vec<WriteAttributeStatusRecord, MAX_COMMAND_ITEMS> = Vec::new();
        let n = cmd.attributes.len();
        let mut should_write = true;
        let mut i: usize = 0;
        while i < n
            invariant
                n == cmd.attributes@.len(),
                n <= MAX_COMMAND_ITEMS,
                i <= n,
                out@.len() == i,
                forall|j: int| 0 <= j < i ==> #[trigger] out@[j] == (WriteAttributeStatusRecord {
                    status: spec_check_one(self.spec_attrs(), cmd.attributes@[j].identifier, cmd.attributes@[j].data.spec_view()),
                    identifier: cmd.attributes@[j].identifier,
                }),
                should_write == forall|j: int| 0 <= j < i ==> #[trigger] out@[j].status == ZclStatus::Success,
            decreases n - i,
        {
            let rec = cmd.attributes.get(i);
            let status = match self.attributes.get(&rec.identifier) {
                None => ZclStatus::UnsupportedAttribute,
                Some(a) => if !a.can_write() {
                    ZclStatus::ReadOnly
                } else {
                    match a.validate_from_zcl_data(&rec.data) {
                        Ok(()) => ZclStatus::Success,
                        Err(e) => e,
                    }
                },
            };
            if status != ZclStatus::Success {
                should_write = false;
            }
            proof {
                assert(status == spec_check_one(self.spec_attrs(), rec.identifier, rec.data.spec_view()));
            }
            let ghost before = out@;
            let _ = out.push(WriteAttributeStatusRecord { status, identifier: rec.identifier });
            proof {
                assert(forall|j: int| 0 <= j < i ==> out@[j] == before[j]);
                assert(out@[i as int].status == status);
            }
            i = i + 1;
        }
        if should_write {
            let _ = self.write_attributes(cmd);
        }
        out
    }

    /// Configures the reporting of the attributes `cmd` lists, one after
    /// the other (see [`spec_config_one`]).
    pub fn configure_reporting(&mut self, cmd: &ConfigureReportingCommand) -> (r: Vec<AttributeStatusRecord, MAX_COMMAND_ITEMS>)
        requires
            config_cmd_complete(cmd),
            forall|i: int|
                0 <= i < cmd.configuration_records@.len() && #[trigger] cmd.configuration_records@[i].direction
                    == AttributeReportingConfigurationDirection::Report ==> cmd.configuration_records@[i].minimum_reporting_interval is Some
                    && cmd.configuration_records@[i].maximum_reporting_interval is Some,
        ensures
            configs_ok(old(self).spec_attrs(), cmd, r@, final(self).spec_attrs()),
            final(self).identifier == old(self).identifier,
            final(self).cluster_type == old(self).cluster_type,
            ({
                let (st, m) = spec_config_all(old(self).spec_attrs(), config_recs(cmd));
                &&& r@.len() == cmd.configuration_records@.len()
                &&& forall|i: int| 0 <= i < r@.len() ==> #[trigger] r@[i] == AttributeStatusRecord {
                    status: st[i],
                    direction: cmd.configuration_records@[i].direction,
                    identifier: cmd.configuration_records@[i].identifier,
                }
                &&& final(self).spec_attrs() == m
            }),
    {
        let mut out: Vec<AttributeStatusRecord, MAX_COMMAND_ITEMS> = Vec::new();
        let n = cmd.configuration_records.len();
        let ghost recs = config_recs(cmd);
        let ghost m0 = self.spec_attrs();
        let mut i: usize = 0;
        proof {
            assert(recs.subrange(0, 0) =~= Seq::<(AttributeReportingConfigurationDirection, u16, u16, u16, Option<ZclDataView>)>::empty());
        }
        while i < n
            invariant
                n == cmd.configuration_records@.len(),
                n <= MAX_COMMAND_ITEMS,
                i <= n,
                recs == config_recs(cmd),
                forall|k: int|
                    0 <= k < cmd.configuration_records@.len() && #[trigger] cmd.configuration_records@[k].direction
                        == AttributeReportingConfigurationDirection::Report ==> cmd.configuration_records@[k].minimum_reporting_interval is Some
                        && cmd.configuration_records@[k].maximum_reporting_interval is Some,
                self.identifier == old(self).identifier,
                self.cluster_type == old(self).cluster_type,
                out@.len() == i,
                ({
                    let (st, m) = spec_config_all(m0, recs.subrange(0, i as int));
                    &&& forall|j: int| 0 <= j < i ==> #[trigger] out@[j] == AttributeStatusRecord {
                        status: st[j],
                        direction: cmd.configuration_records@[j].direction,
                        identifier: cmd.configuration_records@[j].identifier,
                    }
                    &&& self.spec_attrs() == m
                    &&& st.len() == i
                }),
            decreases n - i,
        {
            let rec = cmd.configuration_records.get(i);
            let status = self.configure_one(rec);
            let _ = out.push(AttributeStatusRecord { status, direction: rec.direction, identifier: rec.identifier });
            proof {
                let next = recs.subrange(0, i + 1);
                assert(next.drop_last() =~= recs.subrange(0, i as int));
                assert(next.last() == recs[i as int]);
            }
            i = i + 1;
        }
        proof {
            assert(recs.subrange(0, n as int) =~= recs);
        }
        out
    }

    /// Configures the reporting of one attribute (see [`spec_config_one`]).
    fn configure_one(&mut self, rec: &crate::zcl::command::AttributeReportingConfigurationRecord) -> (r: ZclStatus)
        requires
            rec.direction == AttributeReportingConfigurationDirection::Report ==> rec.minimum_reporting_interval is Some
                && rec.maximum_reporting_interval is Some,
        ensures
            final(self).identifier == old(self).identifier,
            final(self).cluster_type == old(self).cluster_type,
            ({
                let min = match rec.minimum_reporting_interval {
                    Some(v) => v,
                    None => 0,
                };
                let max = match rec.maximum_reporting_interval {
                    Some(v) => v,
                    None => 0,
                };
                (r, final(self).spec_attrs()) == spec_config_one(
                    old(self).spec_attrs(),
                    rec.direction,
                    rec.identifier,
                    min,
                    max,
                    opt_view(rec.reportable_change),
                )
            }),
    {
        if rec.direction != AttributeReportingConfigurationDirection::Report {
            return ZclStatus::UnsupportedAttribute;
        }
        let id = rec.identifier;
        let placeholder = match self.attributes.get(&id) {
            None => return ZclStatus::UnreportableAttribute,
            Some(a) => {
                if a.reporting.is_none() {
                    return ZclStatus::UnreportableAttribute;
                }
                ZclAttribute { identifier: a.identifier, access: a.access, value: ZclData::Null, range: a.range, reporting: None }
            },
        };
        let min = match rec.minimum_reporting_interval {
            Some(v) => v,
            None => 0,
        };
        let max = match rec.maximum_reporting_interval {
            Some(v) => v,
            None => 0,
        };
        let ghost m0 = self.spec_attrs();
        let mut attr = match self.attributes.insert(id, placeholder) {
            Ok(Some(a)) => a,
            _ => {
                proof {
                    assert(false);
                }
                return ZclStatus::Failure;
            },
        };
        proof {
            assert(attr.spec_view() == m0[id]);
        }
        let mut config = match attr.reporting {
            Some(c) => c,
            None => {
                proof {
                    assert(false);
                }
                return ZclStatus::Failure;
            },
        };
        let status = match config.set_values(min, max, dup_opt(&rec.reportable_change)) {
            Ok(()) => ZclStatus::Success,
            Err(e) => e,
        };
        attr.reporting = Some(config);
        let ghost v = attr.spec_view();
        let _ = self.attributes.insert(id, attr);
        proof {
            assert(self.spec_attrs() =~= m0.insert(id, v));
            if status != ZclStatus::Success {
                assert(m0.insert(id, v) =~= m0);
            }
        }
        status
    }

    /// Reads the reporting configurations `cmd` asks for: of reports sent
    /// by reported attributes, the data type and the current intervals;
    /// unsupported otherwise.
    pub fn read_reporting_config(&self, cmd: &ReadReportingConfigurationCommand) -> (r: Vec<AttributeReadReportingConfigurationRecord, MAX_COMMAND_ITEMS>)
        ensures
            read_configs_ok(self.spec_attrs(), cmd.attributes@, r@),
            r@.len() == cmd.attributes@.len(),
            forall|i: int|
                0 <= i < r@.len() ==> {
                    let q = cmd.attributes@[i];
                    let m = self.spec_attrs();
                    let found = q.direction == AttributeReportingConfigurationDirection::Report && m.contains_key(q.identifier)
                        && m[q.identifier].reporting is Some;
                    &&& #[trigger] r@[i].direction == q.direction
                    &&& r@[i].identifier == q.identifier
                    &&& r@[i].reportable_change is None
                    &&& r@[i].timeout_period is None
                    &&& found ==> r@[i].status == ZclStatus::Success && r@[i].data_type == Some(m[q.identifier].value.spec_tag())
                        && r@[i].minimum_reporting_interval == Some(m[q.identifier].reporting->Some_0.current.0)
                        && r@[i].maximum_reporting_interval == Some(m[q.identifier].reporting->Some_0.current.1)
                    &&& !found ==> r@[i].status == ZclStatus::UnsupportedAttribute && r@[i].data_type is None
                        && r@[i].minimum_reporting_interval is None && r@[i].maximum_reporting_interval is None
                },
    {
        let mut out: Vec<AttributeReadReportingConfigurationRecord, MAX_COMMAND_ITEMS> = Vec::new();
        let n = cmd.attributes.len();
        let mut i: usize = 0;
        while i < n
            invariant
                n == cmd.attributes@.len(),
                n <= MAX_COMMAND_ITEMS,
                i <= n,
                out@.len() == i,
                forall|j: int|
                    0 <= j < i ==> {
                        let q = cmd.attributes@[j];
                        let m = self.spec_attrs();
                        let found = q.direction == AttributeReportingConfigurationDirection::Report && m.contains_key(q.identifier)
                            && m[q.identifier].reporting is Some;
                        &&& #[trigger] out@[j].direction == q.direction
                        &&& out@[j].identifier == q.identifier
                        &&& out@[j].reportable_change is None
                        &&& out@[j].timeout_period is None
                        &&& found ==> out@[j].status == ZclStatus::Success && out@[j].data_type == Some(m[q.identifier].value.spec_tag())
                            && out@[j].minimum_reporting_interval == Some(m[q.identifier].reporting->Some_0.current.0)
                            && out@[j].maximum_reporting_interval == Some(m[q.identifier].reporting->Some_0.current.1)
                        &&& !found ==> out@[j].status == ZclStatus::UnsupportedAttribute && out@[j].data_type is None
                            && out@[j].minimum_reporting_interval is None && out@[j].maximum_reporting_interval is None
                    },
            decreases n - i,
        {
            let q = *cmd.attributes.get(i);
            let unsupported = AttributeReadReportingConfigurationRecord {
                status: ZclStatus::UnsupportedAttribute,
                direction: q.direction,
                identifier: q.identifier,
                data_type: None,
                minimum_reporting_interval: None,
                maximum_reporting_interval: None,
                reportable_change: None,
                timeout_period: None,
            };
            let rec = if q.direction != AttributeReportingConfigurationDirection::Report {
                unsupported
            } else {
                match self.attributes.get(&q.identifier) {
                    Some(a) => match &a.reporting {
                        Some(c) => AttributeReadReportingConfigurationRecord {
                            status: ZclStatus::Success,
                            direction: q.direction,
                            identifier: q.identifier,
                            data_type: Some(a.get_zcl_data_identifier()),
                            minimum_reporting_interval: Some(c.current.0),
                            maximum_reporting_interval: Some(c.current.1),
                            reportable_change: None,
                            timeout_period: None,
                        },
                        None => unsupported,
                    },
                    None => unsupported,
                }
            };
            let _ = out.push(rec);
            i = i + 1;
        }
        out
    }
}

impl ZclCluster {
    /// The entry with the smallest identifier not below `lower`, if any.
    fn next_key_at_least(&self, lower: u32) -> (r: Option<usize>)
        ensures
            r matches Some(j) ==> j < self.attributes.entries().len() && self.attributes.entries()[j as int].0 >= lower
                && forall|k: int| 0 <= k < self.attributes.entries().len() && self.attributes.entries()[k].0 >= lower
                    ==> self.attributes.entries()[j as int].0 <= #[trigger] self.attributes.entries()[k].0,
            r is None ==> forall|k: int| 0 <= k < self.attributes.entries().len() ==> #[trigger] self.attributes.entries()[k].0 < lower,
    {
        let n = self.attributes.len();
        let mut best: Option<usize> = None;
        let mut j: usize = 0;
        while j < n
            invariant
                n == self.attributes.entries().len(),
                j <= n,
                best matches Some(b) ==> b < j && self.attributes.entries()[b as int].0 >= lower
                    && forall|k: int| 0 <= k < j && self.attributes.entries()[k].0 >= lower
                        ==> self.attributes.entries()[b as int].0 <= #[trigger] self.attributes.entries()[k].0,
                best is None ==> forall|k: int| 0 <= k < j ==> #[trigger] self.attributes.entries()[k].0 < lower,
            decreases n - j,
        {
            let key = self.attributes.entry_at(j).0;
            if key as u32 >= lower {
                match best {
                    None => best = Some(j),
                    Some(b) => if key < self.attributes.entry_at(b).0 {
                        best = Some(j);
                    },
                }
            }
            j = j + 1;
        }
        best
    }

    /// Lists the attributes from the identifier `start` on, in ascending
    /// order, at most `maximum` of them, with their data types (see
    /// [`spec_discovered`]).
    pub fn discover_attributes(&self, start: u16, maximum: u8) -> (r: Vec<DiscoverAttributeRecord, MAX_COMMAND_ITEMS>)
        ensures
            discover_ok(self.spec_attrs(), start, maximum, r@),
            spec_discovered(self.spec_attrs().dom(), start, maximum, r@.map_values(|d: DiscoverAttributeRecord| d.identifier)),
            forall|i: int| 0 <= i < r@.len() ==> #[trigger] r@[i].data_type == self.spec_attrs()[r@[i].identifier].value.spec_tag(),
    {
        let ghost keys = self.spec_attrs().dom();
        let ghost e = self.attributes.entries();
        let n = self.attributes.len();
        let mut out: Vec<DiscoverAttributeRecord, MAX_COMMAND_ITEMS> = Vec::new();
        let ghost mut used: Set<int> = Set::empty();
        let mut lower: u32 = start as u32;
        let mut count: usize = 0;
        let mut done = false;
        while count < maximum as usize && !done
            invariant
                e == self.attributes.entries(),
                crate::collections::keys_unique(e),
                keys == self.spec_attrs().dom(),
                n == e.len(),
                n <= MAX_ATTRIBUTES_PER_CLUSTER,
                start <= lower <= 0x10000,
                count == out@.len(),
                count <= maximum,
                used.finite(),
                used.len() == count,
                forall|x: int| used.contains(x) ==> 0 <= x < n && start <= e[x].0 < lower,
                forall|x: int| 0 <= x < n && start <= #[trigger] e[x].0 < lower ==> used.contains(x),
                forall|i: int, j: int| 0 <= i < j < out@.len() ==> out@[i].identifier < out@[j].identifier,
                forall|i: int| 0 <= i < out@.len() ==> keys.contains(#[trigger] out@[i].identifier) && start <= out@[i].identifier < lower,
                forall|i: int| 0 <= i < out@.len() ==> #[trigger] out@[i].data_type == self.spec_attrs()[out@[i].identifier].value.spec_tag(),
                forall|k: u16| keys.contains(k) && start <= k < lower ==> exists|i: int| 0 <= i < out@.len() && #[trigger] out@[i].identifier == k,
                count > 0 ==> out@.last().identifier == lower - 1,
                done ==> forall|k: u16| keys.contains(k) ==> k < lower,
            decreases 0x10000 - lower, if done { 0int } else { 1int },
        {
            match self.next_key_at_least(lower) {
                None => {
                    proof {
                        assert forall|k: u16| keys.contains(k) implies k < lower by {
                            let x = choose|x: int| 0 <= x < e.len() && e[x].0 == k;
                            assert(e[x].0 < lower);
                        }
                    }
                    done = true;
                },
                Some(j) => {
                    let entry = self.attributes.entry_at(j);
                    let key = entry.0;
                    proof {
                        assert(self.attributes.spec_has(key));
                        assert(keys.contains(key));
                        assert(!used.contains(j as int));
                        vstd::set_lib::lemma_int_range(0, n as int);
                        vstd::set_lib::lemma_len_subset(used.insert(j as int), vstd::set_lib::set_int_range(0, n as int));
                        assert(self.attributes.spec_get(key) == Some(entry.1)) by {
                            let x = choose|x: int| 0 <= x < e.len() && e[x].0 == key;
                            crate::collections::lemma_keys_unique(&self.attributes, x, j as int);
                        }
                    }
                    let ghost before = out@;
                    let _ = out.push(DiscoverAttributeRecord { identifier: key, data_type: entry.1.get_zcl_data_identifier() });
                    proof {
                        used = used.insert(j as int);
                        assert forall|k: u16| keys.contains(k) && start <= k < key + 1 implies exists|i: int|
                            0 <= i < out@.len() && #[trigger] out@[i].identifier == k by {
                            if k < lower {
                                let i = choose|i: int| 0 <= i < before.len() && #[trigger] before[i].identifier == k;
                                assert(out@[i] == before[i]);
                            } else {
                                let x = choose|x: int| 0 <= x < e.len() && e[x].0 == k;
                                assert(e[x].0 >= lower);
                                assert(key <= e[x].0);
                                assert(out@[count as int].identifier == k);
                            }
                        }
                        assert forall|x: int| 0 <= x < n && start <= #[trigger] e[x].0 < key + 1 implies used.contains(x) by {
                            if e[x].0 >= lower {
                                assert(key <= e[x].0);
                                crate::collections::lemma_keys_unique(&self.attributes, x, j as int);
                            }
                        }
                    }
                    lower = key as u32 + 1;
                    count = count + 1;
                },
            }
        }
        proof {
            let ids = out@.map_values(|d: DiscoverAttributeRecord| d.identifier);
            assert forall|k: u16| keys.contains(k) && k >= start && !ids.contains(k) implies ids.len() == maximum && (ids.len() == 0 || k > ids.last()) by {
                if k < lower {
                    let i = choose|i: int| 0 <= i < out@.len() && #[trigger] out@[i].identifier == k;
                    assert(ids[i] == k);
                }
            }
            assert forall|i: int| 0 <= i < ids.len() implies keys.contains(#[trigger] ids[i]) && ids[i] >= start by {
                assert(ids[i] == out@[i].identifier);
            }
        }
        out
    }
}

} // verus!
