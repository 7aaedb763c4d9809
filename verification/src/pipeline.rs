//! The reading pipeline: for each advertisement event, identify the
//! device by name, resolve its sensor identity, apply the dedup window,
//! decode the payload, and hand back the reading to emit (if any).

use vstd::prelude::*;

use crate::reading::{read_data, spec_decode, SensorReading};
use crate::registry::{get_sensor, spec_resolve, Registry};
use crate::tracker::{spec_admitted, SensorTracker};

verus! {

/// The dedup window: minimum elapsed microseconds between two accepted
/// readings for the same sensor.
pub const DEDUP_WINDOW_MICROS: u64 = 60_000_000;

/// The advertised-name marker of the supported sensor family: names
/// beginning with "ATC".
pub open spec fn spec_family_name(name: Seq<char>) -> bool {
    name.len() >= 3 && name[0] == 'A' && name[1] == 'T' && name[2] == 'C'
}

/// Whether an advertised name marks a device of the supported family.
pub fn matches_family(name: &str) -> (r: bool)
    ensures
        r == spec_family_name(name@),
{
    let n = name.unicode_len();
    if n < 3 {
        return false;
    }
    name.get_char(0) == 'A' && name.get_char(1) == 'T' && name.get_char(2) == 'C'
}

/// The byte sequences an advertisement's service-data map carries; an
/// absent map carries none.
pub open spec fn spec_service_values(sd: Option<Vec<Vec<u8>>>) -> Seq<Seq<u8>> {
    match sd {
        Some(values) => values.deep_view(),
        None => Seq::empty(),
    }
}

/// Processes one advertisement event, in order: drop it if the advertised
/// name is absent or not of the sensor family; resolve the sensor; drop it
/// if a reading for that sensor was accepted less than `window`
/// microseconds ago; otherwise record `now` as last-accepted *before*
/// decoding (so a malformed payload still counts against the window) and
/// decode the payload. Returns the reading to emit, if any.
pub fn process_event(
    registry: &Registry,
    tracker: &mut SensorTracker,
    device_name: Option<&str>,
    service_data: &Option<Vec<Vec<u8>>>,
    now: u64,
    window: u64,
) -> (r: Option<SensorReading>)
    requires
        old(tracker).inv(),
    ensures
        final(tracker).inv(),
        (match device_name {
            None => *final(tracker) == *old(tracker) && r is None,
            Some(name) => {
                if !spec_family_name(name@) {
                    *final(tracker) == *old(tracker) && r is None
                } else {
                    let sensor = spec_resolve(registry@, name@);
                    if !spec_admitted(old(tracker)@, sensor.name, now, window) {
                        *final(tracker) == *old(tracker) && r is None
                    } else {
                        final(tracker)@ == old(tracker)@.insert(sensor.name, now) && (match r {
                            Some(reading) => Some(reading@) == spec_decode(
                                sensor,
                                spec_service_values(*service_data),
                                now,
                            ) && reading.wf_temperature(),
                            None => spec_decode(
                                sensor,
                                spec_service_values(*service_data),
                                now,
                            ) is None,
                        })
                    }
                }
            },
        }),
{
    let name: &str = match device_name {
        Some(n) => n,
        None => {
            return None;
        },
    };
    if !matches_family(name) {
        return None;
    }
    let sensor = get_sensor(registry, name);
    let admitted: bool = match tracker.get(&sensor) {
        None => true,
        Some(last) => now >= window && last <= now - window,
    };
    if !admitted {
        return None;
    }
    tracker.update(&sensor, now);
    match service_data {
        Some(values) => read_data(sensor, values, now),
        None => None,
    }
}

/// Law: dedup within the window. Once a reading for a sensor has been
/// admitted and recorded at instant `t` (whether or not its decode then
/// succeeded), a second event for the same sensor at `t + delta` is
/// admitted iff `delta >= window`.
pub proof fn lemma_dedup_window(
    times: Map<Seq<char>, u64>,
    name: Seq<char>,
    t: u64,
    delta: u64,
    window: u64,
)
    requires
        t + delta <= u64::MAX,
    ensures
        spec_admitted(times.insert(name, t), name, (t + delta) as u64, window) <==> delta
            >= window,
{
}

} // verus!
