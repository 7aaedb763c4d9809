//! Sensor identities and the configuration they are loaded from.

use vstd::prelude::*;

verus! {

/// Mathematical view of a sensor identity: the broadcast device name and
/// the configured human-readable location, as character sequences.
pub ghost struct SensorSpec {
    pub name: Seq<char>,
    pub location: Seq<char>,
}

/// A logical sensor identity: the broadcast device name (stable key) and a
/// human-readable location. Immutable once constructed.
pub struct Sensor {
    pub name: String,
    pub location: String,
}

impl View for Sensor {
    type V = SensorSpec;

    open spec fn view(&self) -> SensorSpec {
        SensorSpec { name: self.name@, location: self.location@ }
    }
}

impl Clone for Sensor {
    fn clone(&self) -> (r: Sensor)
        ensures
            r@ == self@,
    {
        Sensor { name: self.name.clone(), location: self.location.clone() }
    }
}

/// The ordered list of configured sensor entries, loaded once at startup.
pub struct Config {
    pub sensors: Vec<Sensor>,
}

} // verus!
