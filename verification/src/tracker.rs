//! Per-device memory of which handlers have already run.

use crate::band::Band;
use vstd::prelude::*;
use vstd::string::*;

verus! {

/// One flag per band: the handler for that band has already run since the
/// device last left the band.
#[derive(Clone, Copy, Debug, PartialEq, Eq, Structural)]
pub struct Status {
    pub good_handled: bool,
    pub okay_handled: bool,
    pub bad_handled: bool,
    pub critical_handled: bool,
}

impl Status {
    /// The status with no handler run.
    pub open spec fn cleared() -> Status {
        Status {
            good_handled: false,
            okay_handled: false,
            bad_handled: false,
            critical_handled: false,
        }
    }

    /// The flag of `band`.
    pub open spec fn handled(self, band: Band) -> bool {
        match band {
            Band::Good => self.good_handled,
            Band::Okay => self.okay_handled,
            Band::Bad => self.bad_handled,
            Band::Critical => self.critical_handled,
        }
    }

    /// `self` with the flag of `band` set.
    pub open spec fn marked(self, band: Band) -> Status {
        match band {
            Band::Good => Status { good_handled: true, ..self },
            Band::Okay => Status { okay_handled: true, ..self },
            Band::Bad => Status { bad_handled: true, ..self },
            Band::Critical => Status { critical_handled: true, ..self },
        }
    }

    /// The band whose handler is due for a device that is in `band`: the
    /// bands are tried from `Critical` up to `Good`, and the first one that
    /// the device is in and whose flag is not set is due.
    pub open spec fn due(self, band: Band) -> Option<Band> {
        if band == Band::Critical && !self.critical_handled {
            Some(Band::Critical)
        } else if band == Band::Bad && !self.bad_handled {
            Some(Band::Bad)
        } else if band == Band::Okay && !self.okay_handled {
            Some(Band::Okay)
        } else if band == Band::Good && !self.good_handled {
            Some(Band::Good)
        } else {
            None
        }
    }

    /// The status after the handler that was due, if any, has been marked.
    pub open spec fn dispatched(self, band: Band) -> Status {
        match self.due(band) {
            Some(fired) => self.marked(fired),
            None => self,
        }
    }

    /// A status with no handler run.
    pub fn new() -> (status: Status)
        ensures
            status == Status::cleared(),
    {
        Status {
            good_handled: false,
            okay_handled: false,
            bad_handled: false,
            critical_handled: false,
        }
    }

    /// Whether the handler of `band` has run.
    pub fn is_handled(&self, band: Band) -> (r: bool)
        ensures
            r == self.handled(band),
    {
        match band {
            Band::Good => self.good_handled,
            Band::Okay => self.okay_handled,
            Band::Bad => self.bad_handled,
            Band::Critical => self.critical_handled,
        }
    }

    /// Decides which handler runs for a device that is in `band`, and marks
    /// it as run.
    pub fn dispatch(&mut self, band: Band) -> (fire: Option<Band>)
        ensures
            fire == old(self).due(band),
            *final(self) == old(self).dispatched(band),
    {
        if band == Band::Critical && !self.critical_handled {
            self.critical_handled = true;
            Some(Band::Critical)
        } else if band == Band::Bad && !self.bad_handled {
            self.bad_handled = true;
            Some(Band::Bad)
        } else if band == Band::Okay && !self.okay_handled {
            self.okay_handled = true;
            Some(Band::Okay)
        } else if band == Band::Good && !self.good_handled {
            self.good_handled = true;
            Some(Band::Good)
        } else {
            None
        }
    }
}

/// What is remembered of one device: the band it was last seen in, and its
/// flags.
#[derive(Clone, Copy, Debug, PartialEq, Eq, Structural)]
pub struct Record {
    pub band: Band,
    pub status: Status,
}

impl Record {
    /// Exactly the flag of the device's band is set: its handler has run,
    /// and no other since the device entered the band.
    pub open spec fn settled(self) -> bool {
        self.status == Status::cleared().marked(self.band)
    }
}

/// The flags with which an observation starts: those of the earlier
/// record if the device is still in the same band, none if the band has
/// changed or the device is seen for the first time.
pub open spec fn carried_status(earlier: Option<Record>, band: Band) -> Status {
    match earlier {
        Some(record) => if record.band == band {
            record.status
        } else {
            Status::cleared()
        },
        None => Status::cleared(),
    }
}

/// The record of a device after it has been observed in `band`.
pub open spec fn observed_record(earlier: Option<Record>, band: Band) -> Record {
    Record { band, status: carried_status(earlier, band).dispatched(band) }
}

/// The band whose handler runs when the device is observed in `band`.
pub open spec fn observed_fire(earlier: Option<Record>, band: Band) -> Option<Band> {
    carried_status(earlier, band).due(band)
}

/// What is remembered of `device` in `records`.
pub open spec fn earlier_record(records: Map<Seq<char>, Record>, device: Seq<char>) -> Option<
    Record,
> {
    if records.dom().contains(device) {
        Some(records[device])
    } else {
        None
    }
}

/// The records after `device` has been observed in `band`.
pub open spec fn observed(records: Map<Seq<char>, Record>, device: Seq<char>, band: Band) -> Map<
    Seq<char>,
    Record,
> {
    records.insert(device, observed_record(earlier_record(records, device), band))
}

/// The band whose handler runs when `device` is observed in `band`.
pub open spec fn fired(records: Map<Seq<char>, Record>, device: Seq<char>, band: Band) -> Option<
    Band,
> {
    observed_fire(earlier_record(records, device), band)
}

/// Every record is settled.
pub open spec fn all_settled(records: Map<Seq<char>, Record>) -> bool {
    forall|device: Seq<char>| #[trigger]
        records.dom().contains(device) ==> records[device].settled()
}

/// One observation: a device was seen in a band.
pub struct Sighting {
    pub device: Seq<char>,
    pub band: Band,
}

/// The records after all of `sightings` have been observed, in order.
pub open spec fn observed_all(records: Map<Seq<char>, Record>, sightings: Seq<Sighting>) -> Map<
    Seq<char>,
    Record,
>
    decreases sightings.len(),
{
    if sightings.len() == 0 {
        records
    } else {
        observed_all(
            observed(records, sightings[0].device, sightings[0].band),
            sightings.drop_first(),
        )
    }
}

/// How many times a handler runs for `device` while `sightings` are
/// observed, in order.
pub open spec fn fire_count(
    records: Map<Seq<char>, Record>,
    sightings: Seq<Sighting>,
    device: Seq<char>,
) -> nat
    decreases sightings.len(),
{
    if sightings.len() == 0 {
        0
    } else {
        let first = sightings[0];
        let now: nat = if first.device == device && fired(records, first.device, first.band)
            is Some {
            1
        } else {
            0
        };
        now + fire_count(
            observed(records, first.device, first.band),
            sightings.drop_first(),
            device,
        )
    }
}

/// `device` is seen at least once in `sightings`.
pub open spec fn seen(sightings: Seq<Sighting>, device: Seq<char>) -> bool {
    exists|i: int| 0 <= i < sightings.len() && (#[trigger] sightings[i]).device == device
}

/// Whenever `device` is seen in `sightings`, it is in `band`.
pub open spec fn steady(sightings: Seq<Sighting>, device: Seq<char>, band: Band) -> bool {
    forall|i: int|
        0 <= i < sightings.len() && (#[trigger] sightings[i]).device == device
            ==> sightings[i].band == band
}

/// Only the handler of the band that a device is observed in can run.
pub proof fn lemma_fires_own_band(records: Map<Seq<char>, Record>, device: Seq<char>, band: Band)
    ensures
        fired(records, device, band) is Some ==> fired(records, device, band) == Some(band),
        fired(records, device, band) is Some <==> !carried_status(
            earlier_record(records, device),
            band,
        ).handled(band),
        observed(records, device, band)[device].band == band,
        observed(records, device, band)[device].status.handled(band),
{
}

/// Observing one device changes nothing of what is remembered of another.
pub proof fn lemma_others_untouched(
    records: Map<Seq<char>, Record>,
    device: Seq<char>,
    band: Band,
    other: Seq<char>,
)
    requires
        other != device,
    ensures
        earlier_record(observed(records, device, band), other) == earlier_record(records, other),
{
}

/// Settled records stay settled when a device is observed.
pub proof fn lemma_observed_settled(
    records: Map<Seq<char>, Record>,
    device: Seq<char>,
    band: Band,
)
    requires
        all_settled(records),
    ensures
        all_settled(observed(records, device, band)),
{
}

/// A device that is seen for the first time, or in another band than the
/// last time, has the handler of its new band run, whatever ran before.
pub proof fn lemma_band_change_fires(
    records: Map<Seq<char>, Record>,
    device: Seq<char>,
    band: Band,
)
    requires
        !records.dom().contains(device) || records[device].band != band,
    ensures
        fired(records, device, band) == Some(band),
        observed(records, device, band)[device].settled(),
{
}

/// A device that is seen again in the band whose handler has run has no
/// handler run, and nothing that is remembered changes.
pub proof fn lemma_same_band_is_silent(
    records: Map<Seq<char>, Record>,
    device: Seq<char>,
    band: Band,
)
    requires
        records.dom().contains(device),
        records[device].band == band,
        records[device].status.handled(band),
    ensures
        fired(records, device, band) is None,
        observed(records, device, band) == records,
{
}

/// The handlers that run for a device whose band does not change: one if
/// the device was not known before and is seen at all, none otherwise.
proof fn lemma_steady_count(
    records: Map<Seq<char>, Record>,
    sightings: Seq<Sighting>,
    device: Seq<char>,
    band: Band,
)
    requires
        all_settled(records),
        steady(sightings, device, band),
        records.dom().contains(device) ==> records[device].band == band,
    ensures
        fire_count(records, sightings, device) == if !records.dom().contains(device) && seen(
            sightings,
            device,
        ) {
            1nat
        } else {
            0nat
        },
    decreases sightings.len(),
{
    if sightings.len() > 0 {
        let first = sightings[0];
        let rest = sightings.drop_first();
        lemma_observed_settled(records, first.device, first.band);
        assert(steady(rest, device, band)) by {
            assert forall|i: int|
                0 <= i < rest.len() && (#[trigger] rest[i]).device == device implies rest[i].band
                == band by {
                assert(rest[i] == sightings[i + 1]);
            }
        }
        lemma_steady_count(observed(records, first.device, first.band), rest, device, band);
        if first.device != device {
            // The device is seen in the rest exactly if it is seen at all.
            if seen(rest, device) {
                let i = choose|i: int| 0 <= i < rest.len() && (#[trigger] rest[i]).device == device;
                assert(sightings[i + 1].device == device);
            }
            if seen(sightings, device) {
                let i = choose|i: int|
                    0 <= i < sightings.len() && (#[trigger] sightings[i]).device == device;
                assert(rest[i - 1].device == device);
            }
        }
    }
}

/// A device that stays in one band has the handler of that band run
/// exactly once over a whole run that starts with nothing remembered,
/// however often it is seen and whatever other devices are seen between.
pub proof fn lemma_steady_band_fires_once(
    sightings: Seq<Sighting>,
    device: Seq<char>,
    band: Band,
)
    requires
        seen(sightings, device),
        steady(sightings, device, band),
    ensures
        fire_count(Map::empty(), sightings, device) == 1,
{
    lemma_steady_count(Map::empty(), sightings, device, band);
}

/// Observes a device in `band`, given what was remembered of it.
pub fn observe_record(earlier: Option<Record>, band: Band) -> (r: (Record, Option<Band>))
    ensures
        r.0 == observed_record(earlier, band),
        r.1 == observed_fire(earlier, band),
{
    let mut status = match earlier {
        Some(record) => if record.band == band {
            record.status
        } else {
            Status::new()
        },
        None => Status::new(),
    };
    let fire = status.dispatch(band);
    (Record { band, status }, fire)
}

/// A device that has been seen.
struct Device {
    name: String,
    record: Record,
}

/// The memory of all devices seen so far, by name.
pub struct Tracker {
    devices: Vec<Device>,
}

/// `name` is the name of one of `devices`.
spec fn known(devices: Seq<Device>, name: Seq<char>) -> bool {
    exists|i: int| 0 <= i < devices.len() && #[trigger] devices[i].name@ == name
}

/// The place of the device called `name` among `devices`.
spec fn place(devices: Seq<Device>, name: Seq<char>) -> int {
    choose|i: int| 0 <= i < devices.len() && #[trigger] devices[i].name@ == name
}

/// No two of `devices` have the same name.
spec fn distinct(devices: Seq<Device>) -> bool {
    forall|i: int, j: int|
        0 <= i < j < devices.len() ==> #[trigger] devices[i].name@ != #[trigger] devices[j].name@
}

/// The records of `devices` by name.
spec fn records_of(devices: Seq<Device>) -> Map<Seq<char>, Record> {
    Map::new(
        |name: Seq<char>| known(devices, name),
        |name: Seq<char>| devices[place(devices, name)].record,
    )
}

/// With distinct names, the record found under a device's name is its own.
proof fn lemma_record_at(devices: Seq<Device>, i: int)
    requires
        distinct(devices),
        0 <= i < devices.len(),
    ensures
        records_of(devices).dom().contains(devices[i].name@),
        records_of(devices)[devices[i].name@] == devices[i].record,
{
    let j = place(devices, devices[i].name@);
    assert(devices[j].name@ == devices[i].name@);
}

impl View for Tracker {
    type V = Map<Seq<char>, Record>;

    closed spec fn view(&self) -> Map<Seq<char>, Record> {
        records_of(self.devices@)
    }
}

impl Tracker {
    #[verifier::type_invariant]
    spec fn well_formed(self) -> bool {
        &&& distinct(self.devices@)
        &&& forall|i: int| 0 <= i < self.devices@.len() ==> (#[trigger] self.devices@[i]).record.settled()
    }

    /// A tracker that has seen no device.
    pub fn new() -> (tracker: Tracker)
        ensures
            tracker@ == Map::<Seq<char>, Record>::empty(),
    {
        Tracker { devices: Vec::new() }
    }

    /// The place of the device called `name`, if it is known.
    fn find(&self, name: &String) -> (found: Option<usize>)
        ensures
            match found {
                Some(i) => i < self.devices@.len() && self.devices@[i as int].name@ == name@,
                None => !known(self.devices@, name@),
            },
    {
        let mut i: usize = 0;
        while i < self.devices.len()
            invariant
                i <= self.devices@.len(),
                forall|j: int| 0 <= j < i ==> (#[trigger] self.devices@[j]).name@ != name@,
            decreases self.devices@.len() - i,
        {
            if self.devices[i].name == *name {
                return Some(i);
            }
            i = i + 1;
        }
        None
    }

    /// What is remembered of `device`, if it has been seen.
    pub fn record(&self, device: &str) -> (r: Option<Record>)
        ensures
            r == earlier_record(self@, device@),
            all_settled(self@),
    {
        proof {
            use_type_invariant(self);
            self.lemma_settled();
        }
        let name = String::from_str(device);
        match self.find(&name) {
            Some(i) => {
                proof {
                    lemma_record_at(self.devices@, i as int);
                }
                Some(self.devices[i].record)
            },
            None => None,
        }
    }

    /// Every record of a tracker is settled.
    proof fn lemma_settled(self)
        requires
            self.well_formed(),
        ensures
            all_settled(self@),
    {
        assert forall|device: Seq<char>| #[trigger]
            self@.dom().contains(device) implies self@[device].settled() by {
            assert(self.devices@[place(self.devices@, device)].record.settled());
        }
    }

    /// Observes `device` in `band`: remembers the band, clears the flags if
    /// the band has changed, and says which handler, if any, runs now. A
    /// device that was not known is remembered from now on.
    pub fn observe(&mut self, device: &str, band: Band) -> (fire: Option<Band>)
        ensures
            final(self)@ == observed(old(self)@, device@, band),
            fire == fired(old(self)@, device@, band),
            all_settled(old(self)@),
            all_settled(final(self)@),
    {
        proof {
            use_type_invariant(&*self);
            self.lemma_settled();
        }
        let name = String::from_str(device);
        let found = self.find(&name);
        // The list is taken out while it is changed and put back when it is
        // whole again.
        let mut devices: Vec<Device> = Vec::new();
        core::mem::swap(&mut self.devices, &mut devices);
        let fire = match found {
            Some(i) => {
                proof {
                    lemma_record_at(devices@, i as int);
                    lemma_replaced(
                        devices@,
                        i as int,
                        observed_record(Some(devices@[i as int].record), band),
                    );
                }
                let (record, fire) = observe_record(Some(devices[i].record), band);
                devices[i].record = record;
                assert(devices@ =~= old(self).devices@.update(
                    i as int,
                    Device { name: old(self).devices@[i as int].name, record },
                ));
                fire
            },
            None => {
                let (record, fire) = observe_record(None, band);
                proof {
                    lemma_added(devices@, name, record);
                }
                devices.push(Device { name, record });
                fire
            },
        };
        core::mem::swap(&mut self.devices, &mut devices);
        proof {
            self.lemma_settled();
        }
        fire
    }
}

/// Giving a device another record changes the record under its name and
/// nothing else.
proof fn lemma_replaced(before: Seq<Device>, i: int, record: Record)
    requires
        distinct(before),
        0 <= i < before.len(),
    ensures
        distinct(before.update(i, Device { name: before[i].name, record })),
        records_of(before.update(i, Device { name: before[i].name, record })) == records_of(
            before,
        ).insert(before[i].name@, record),
{
    let after = before.update(i, Device { name: before[i].name, record });
    let expected = records_of(before).insert(before[i].name@, record);
    assert(distinct(after)) by {
        assert forall|j: int, k: int| 0 <= j < k < after.len() implies #[trigger] after[j].name@
            != #[trigger] after[k].name@ by {
            assert(before[j].name@ != before[k].name@);
        }
    }
    assert forall|name: Seq<char>| known(after, name) <==> known(before, name) by {
        if known(before, name) {
            assert(after[place(before, name)].name@ == name);
        }
        if known(after, name) {
            assert(before[place(after, name)].name@ == name);
        }
    }
    assert forall|name: Seq<char>| known(after, name) implies #[trigger] records_of(after)[name]
        == expected[name] by {
        let j = place(after, name);
        lemma_record_at(after, j);
        lemma_record_at(before, j);
        lemma_record_at(before, i);
        lemma_record_at(after, i);
    }
    assert(records_of(after) =~= expected);
}

/// Adding a device with a new name adds its record under that name and
/// changes nothing else.
proof fn lemma_added(before: Seq<Device>, name: String, record: Record)
    requires
        distinct(before),
        !known(before, name@),
    ensures
        distinct(before.push(Device { name, record })),
        records_of(before.push(Device { name, record })) == records_of(before).insert(
            name@,
            record,
        ),
{
    let after = before.push(Device { name, record });
    let last = before.len() as int;
    let expected = records_of(before).insert(name@, record);
    assert(distinct(after)) by {
        assert forall|j: int, k: int| 0 <= j < k < after.len() implies #[trigger] after[j].name@
            != #[trigger] after[k].name@ by {
            if k < last {
                assert(before[j].name@ != before[k].name@);
            } else {
                assert(before[j].name@ != name@);
            }
        }
    }
    assert forall|other: Seq<char>| known(after, other) <==> (other == name@ || known(
        before,
        other,
    )) by {
        if known(before, other) {
            assert(after[place(before, other)].name@ == other);
        }
        if other == name@ {
            assert(after[last].name@ == other);
        }
        if known(after, other) && other != name@ {
            assert(before[place(after, other)].name@ == other);
        }
    }
    assert forall|other: Seq<char>| known(after, other) implies #[trigger] records_of(after)[other]
        == expected[other] by {
        let j = place(after, other);
        lemma_record_at(after, j);
        lemma_record_at(after, last);
        if j < last {
            lemma_record_at(before, j);
        }
    }
    assert(records_of(after) =~= expected);
}

} // verus!
