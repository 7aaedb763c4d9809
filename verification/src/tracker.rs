//! The dedup tracker: remembers the last-accepted instant per sensor name
//! and lets the pipeline suppress re-emission within a fixed window.
//!
//! Instants are microseconds on an arbitrary monotone clock supplied by the
//! caller, so the tracker itself never reads a clock.

use vstd::prelude::*;

use crate::sensor::Sensor;

verus! {

/// One remembered admission: a sensor name and the instant (microseconds)
/// at which a reading for that sensor was last accepted.
pub struct TrackerEntry {
    pub name: String,
    pub last_seen: u64,
}

impl View for TrackerEntry {
    type V = (Seq<char>, u64);

    open spec fn view(&self) -> (Seq<char>, u64) {
        (self.name@, self.last_seen)
    }
}

/// The map an entry list stands for; a later entry wins on a repeated name.
pub open spec fn spec_times(entries: Seq<(Seq<char>, u64)>) -> Map<Seq<char>, u64>
    decreases entries.len(),
{
    if entries.len() == 0 {
        Map::empty()
    } else {
        spec_times(entries.drop_last()).insert(entries.last().0, entries.last().1)
    }
}

/// No two entries carry the same sensor name.
pub open spec fn spec_names_unique(entries: Seq<(Seq<char>, u64)>) -> bool {
    forall|i: int, j: int| 0 <= i < j < entries.len() ==> entries[i].0 != entries[j].0
}

/// The admission rule: a reading for `name` at instant `now` is admitted
/// iff the sensor was never seen, or its last-accepted instant lies at
/// least `window` microseconds in the past.
pub open spec fn spec_admitted(
    times: Map<Seq<char>, u64>,
    name: Seq<char>,
    now: u64,
    window: u64,
) -> bool {
    !times.contains_key(name) || times[name] + window <= now
}

/// Tracks, per sensor name, the instant at which a reading was last
/// accepted. Never cleared; growth is bounded by the sensor population.
pub struct SensorTracker {
    entries: Vec<TrackerEntry>,
}

impl View for SensorTracker {
    type V = Map<Seq<char>, u64>;

    open spec fn view(&self) -> Map<Seq<char>, u64> {
        spec_times(self.entries_view())
    }
}

proof fn lemma_times_contains(entries: Seq<(Seq<char>, u64)>, name: Seq<char>)
    ensures
        spec_times(entries).contains_key(name) <==> exists|i: int|
            0 <= i < entries.len() && entries[i].0 == name,
    decreases entries.len(),
{
    if entries.len() > 0 {
        lemma_times_contains(entries.drop_last(), name);
        if spec_times(entries).contains_key(name) && entries.last().0 != name {
            let i = choose|i: int| 0 <= i < entries.drop_last().len() && entries.drop_last()[i].0
                == name;
            assert(entries[i].0 == name);
        }
        if exists|i: int| 0 <= i < entries.len() && entries[i].0 == name {
            let i = choose|i: int| 0 <= i < entries.len() && entries[i].0 == name;
            if i < entries.len() - 1 {
                assert(entries.drop_last()[i].0 == name);
            }
        }
    }
}

proof fn lemma_times_index(entries: Seq<(Seq<char>, u64)>, i: int)
    requires
        spec_names_unique(entries),
        0 <= i < entries.len(),
    ensures
        spec_times(entries).contains_key(entries[i].0),
        spec_times(entries)[entries[i].0] == entries[i].1,
    decreases entries.len(),
{
    if i == entries.len() - 1 {
    } else {
        assert(entries.drop_last()[i] == entries[i]);
        lemma_times_index(entries.drop_last(), i);
    }
}

proof fn lemma_times_update(entries: Seq<(Seq<char>, u64)>, i: int, now: u64)
    requires
        spec_names_unique(entries),
        0 <= i < entries.len(),
    ensures
        spec_times(entries.update(i, (entries[i].0, now))) == spec_times(entries).insert(
            entries[i].0,
            now,
        ),
    decreases entries.len(),
{
    let updated = entries.update(i, (entries[i].0, now));
    if i == entries.len() - 1 {
        assert(updated.drop_last() =~= entries.drop_last());
        assert(spec_times(updated) =~= spec_times(entries).insert(entries[i].0, now));
    } else {
        assert(updated.drop_last() =~= entries.drop_last().update(i, (entries[i].0, now)));
        lemma_times_update(entries.drop_last(), i, now);
        assert(entries.drop_last()[i] == entries[i]);
        assert(updated.last() == entries.last());
        assert(spec_times(updated) =~= spec_times(entries).insert(entries[i].0, now));
    }
}

proof fn lemma_times_push(entries: Seq<(Seq<char>, u64)>, name: Seq<char>, now: u64)
    ensures
        spec_times(entries.push((name, now))) == spec_times(entries).insert(name, now),
{
    assert(entries.push((name, now)).drop_last() =~= entries);
}

impl SensorTracker {
    /// The entry list as the sequence of (name, instant) pairs it views to.
    pub closed spec fn entries_view(&self) -> Seq<(Seq<char>, u64)> {
        Seq::new(self.entries@.len(), |i: int| self.entries@[i]@)
    }

    /// Internal well-formedness: entry names are pairwise distinct, so an
    /// in-place overwrite is an insert on the map view.
    pub closed spec fn inv(&self) -> bool {
        spec_names_unique(self.entries_view())
    }

    /// An empty tracker: no sensor has ever been seen.
    pub fn new() -> (r: SensorTracker)
        ensures
            r.inv(),
            r@ == Map::<Seq<char>, u64>::empty(),
    {
        SensorTracker { entries: Vec::new() }
    }

    /// The recorded last-accepted instant for this sensor's name, or `None`
    /// if it was never seen (a never-seen sensor is immediately eligible
    /// under the admission rule).
    pub fn get(&self, sensor: &Sensor) -> (r: Option<u64>)
        requires
            self.inv(),
        ensures
            r == if self@.contains_key(sensor.name@) {
                Some(self@[sensor.name@])
            } else {
                None::<u64>
            },
    {
        let n = self.entries.len();
        let mut i: usize = 0;
        while i < n
            invariant
                self.inv(),
                n == self.entries@.len(),
                i <= n,
                forall|j: int| 0 <= j < i ==> self.entries_view()[j].0 != sensor.name@,
            decreases n - i,
        {
            if self.entries[i].name == sensor.name {
                proof {
                    lemma_times_index(self.entries_view(), i as int);
                }
                return Some(self.entries[i].last_seen);
            }
            i = i + 1;
        }
        proof {
            lemma_times_contains(self.entries_view(), sensor.name@);
        }
        None
    }

    /// Unconditionally overwrites the recorded instant for this sensor's
    /// name with `now`.
    pub fn update(&mut self, sensor: &Sensor, now: u64)
        requires
            old(self).inv(),
        ensures
            final(self).inv(),
            final(self)@ == old(self)@.insert(sensor.name@, now),
    {
        let n = self.entries.len();
        let mut i: usize = 0;
        while i < n
            invariant
                self == old(self),
                self.inv(),
                n == self.entries@.len(),
                i <= n,
                forall|j: int| 0 <= j < i ==> self.entries_view()[j].0 != sensor.name@,
            decreases n - i,
        {
            if self.entries[i].name == sensor.name {
                let ghost pre = self.entries_view();
                self.entries[i].last_seen = now;
                proof {
                    assert(self.entries_view() =~= pre.update(i as int, (pre[i as int].0, now)));
                    lemma_times_update(pre, i as int, now);
                    assert forall|a: int, b: int|
                        0 <= a < b < self.entries_view().len() implies self.entries_view()[a].0
                        != self.entries_view()[b].0 by {
                        assert(pre[a].0 == self.entries_view()[a].0);
                        assert(pre[b].0 == self.entries_view()[b].0);
                    }
                }
                return;
            }
            i = i + 1;
        }
        let ghost pre = self.entries_view();
        proof {
            lemma_times_contains(pre, sensor.name@);
        }
        self.entries.push(TrackerEntry { name: sensor.name.clone(), last_seen: now });
        proof {
            assert(self.entries_view() =~= pre.push((sensor.name@, now)));
            lemma_times_push(pre, sensor.name@, now);
            assert forall|a: int, b: int|
                0 <= a < b < self.entries_view().len() implies self.entries_view()[a].0
                != self.entries_view()[b].0 by {
                if b < pre.len() {
                    assert(pre[a] == self.entries_view()[a]);
                    assert(pre[b] == self.entries_view()[b]);
                } else {
                    assert(pre[a] == self.entries_view()[a]);
                }
            }
        }
    }
}

} // verus!
