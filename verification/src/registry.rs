//! The sensor registry: maps a broadcast device name to a configured
//! logical sensor, with a fallback "unknown" identity for unconfigured
//! names.

use vstd::prelude::*;

use crate::sensor::{Config, Sensor, SensorSpec};

verus! {

/// Looks `id` up in the configured entries; a later entry silently
/// overwrites an earlier one with the same name.
pub open spec fn spec_lookup(entries: Seq<SensorSpec>, id: Seq<char>) -> Option<SensorSpec>
    decreases entries.len(),
{
    if entries.len() == 0 {
        None
    } else if entries.last().name == id {
        Some(entries.last())
    } else {
        spec_lookup(entries.drop_last(), id)
    }
}

/// What resolution returns: the configured entry on a hit, or a synthetic
/// identity with the queried name and location "unknown" on a miss.
pub open spec fn spec_resolve(entries: Seq<SensorSpec>, id: Seq<char>) -> SensorSpec {
    match spec_lookup(entries, id) {
        Some(s) => s,
        None => SensorSpec { name: id, location: "unknown"@ },
    }
}

/// The configured name-to-sensor map, represented as the ordered list of
/// configuration entries; lookups give later entries precedence.
pub struct Registry {
    pub entries: Vec<Sensor>,
}

impl View for Registry {
    type V = Seq<SensorSpec>;

    open spec fn view(&self) -> Seq<SensorSpec> {
        Seq::new(self.entries@.len(), |i: int| self.entries@[i]@)
    }
}

/// Builds the registry from the configured sensor list, keeping the order
/// (so that later duplicates win on lookup).
pub fn get_sensors(config: &Config) -> (r: Registry)
    ensures
        r@.len() == config.sensors@.len(),
        forall|i: int| 0 <= i < r@.len() ==> r@[i] == config.sensors@[i]@,
{
    let mut entries: Vec<Sensor> = Vec::new();
    let mut i: usize = 0;
    while i < config.sensors.len()
        invariant
            i <= config.sensors@.len(),
            entries@.len() == i,
            forall|j: int| 0 <= j < i ==> entries@[j]@ == config.sensors@[j]@,
        decreases config.sensors@.len() - i,
    {
        entries.push(config.sensors[i].clone());
        i = i + 1;
    }
    Registry { entries }
}

/// Exact-match lookup by device name. On a hit, returns a copy of the
/// matching sensor; on a miss, a fresh sensor named after the queried id
/// with location "unknown". Total over any input string.
pub fn get_sensor(registry: &Registry, device_id: &str) -> (s: Sensor)
    ensures
        s@ == spec_resolve(registry@, device_id@),
{
    let needle: String = device_id.to_owned();
    let mut i: usize = registry.entries.len();
    assert(registry@.take(i as int) =~= registry@);
    while i > 0
        invariant
            i <= registry.entries@.len(),
            needle@ == device_id@,
            spec_lookup(registry@, device_id@) == spec_lookup(
                registry@.take(i as int),
                device_id@,
            ),
        decreases i,
    {
        i = i - 1;
        if registry.entries[i].name == needle {
            assert(registry@.take(i + 1).last() == registry@[i as int]);
            return registry.entries[i].clone();
        }
        assert(registry@.take(i + 1).drop_last() =~= registry@.take(i as int));
    }
    assert(registry@.take(0) =~= Seq::<SensorSpec>::empty());
    Sensor { name: needle, location: "unknown".to_owned() }
}

/// Law: re-resolving the same name against an unchanged registry always
/// yields an equal sensor value; the result is a function of the registry
/// contents and the queried name alone.
pub proof fn lemma_resolve_idempotent(
    entries: Seq<SensorSpec>,
    id: Seq<char>,
    s1: SensorSpec,
    s2: SensorSpec,
)
    requires
        s1 == spec_resolve(entries, id),
        s2 == spec_resolve(entries, id),
    ensures
        s1 == s2,
{
}

} // verus!
