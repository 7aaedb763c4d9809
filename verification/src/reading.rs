//! Decoding the fixed binary advertisement payload into one observation,
//! and rendering an accepted observation as one output record.

use vstd::prelude::*;

use crate::display::{centi_string, spec_centi, spec_decimal, u64_string};
use crate::sensor::{Sensor, SensorSpec};
use crate::temperature::{spec_fahrenheit_centi, Temperature};
use crate::timefmt::{format_timestamp_micros, rfc3339_micros};

verus! {

/// The signed 16-bit big-endian value at payload offsets 6 and 7, in
/// tenths of a degree Celsius.
pub open spec fn spec_raw_temp(hi: u8, lo: u8) -> int {
    let v = hi * 256 + lo;
    if v < 32768 {
        v as int
    } else {
        v - 65536
    }
}

/// Mathematical view of one decoded observation.
pub ghost struct ReadingSpec {
    pub sensor: SensorSpec,
    pub timestamp_micros: u64,
    pub millicelsius: int,
    pub humidity: u8,
    pub battery_level: u8,
}

/// One decoded observation: the resolved sensor, the UTC capture instant
/// (microseconds since the Unix epoch; the payload carries no timestamp),
/// the temperature, and humidity and battery level as raw percentages.
pub struct SensorReading {
    pub sensor: Sensor,
    pub timestamp_micros: u64,
    pub temperature: Temperature,
    pub humidity: u8,
    pub battery_level: u8,
}

impl View for SensorReading {
    type V = ReadingSpec;

    open spec fn view(&self) -> ReadingSpec {
        ReadingSpec {
            sensor: self.sensor@,
            timestamp_micros: self.timestamp_micros,
            millicelsius: self.temperature.millicelsius as int,
            humidity: self.humidity,
            battery_level: self.battery_level,
        }
    }
}

/// What decoding yields: a reading iff the service-data map has exactly
/// one entry whose byte sequence is at least 10 bytes long; temperature in
/// tenths of a degree at offsets 6..8 (big-endian, signed), humidity at
/// offset 8 and battery level at offset 9, both passed through raw.
pub open spec fn spec_decode(
    sensor: SensorSpec,
    values: Seq<Seq<u8>>,
    now: u64,
) -> Option<ReadingSpec> {
    if values.len() == 1 && values[0].len() >= 10 {
        Some(
            ReadingSpec {
                sensor,
                timestamp_micros: now,
                millicelsius: 100 * spec_raw_temp(values[0][6], values[0][7]),
                humidity: values[0][8],
                battery_level: values[0][9],
            },
        )
    } else {
        None
    }
}

/// Decodes the single byte sequence of a service-data map into a reading
/// captured at `now`. A map with any other number of entries, or a byte
/// sequence shorter than 10 bytes, carries no usable payload and yields
/// no reading (this is not an error).
pub fn read_data(sensor: Sensor, service_data: &Vec<Vec<u8>>, now: u64) -> (r: Option<
    SensorReading,
>)
    ensures
        match r {
            Some(reading) => Some(reading@) == spec_decode(
                sensor@,
                service_data.deep_view(),
                now,
            ) && reading.wf_temperature(),
            None => spec_decode(sensor@, service_data.deep_view(), now) is None,
        },
{
    if service_data.len() != 1 {
        return None;
    }
    let value: &Vec<u8> = &service_data[0];
    if value.len() < 10 {
        return None;
    }
    let hi: u8 = value[6];
    let lo: u8 = value[7];
    let v: u32 = (hi as u32) * 256 + (lo as u32);
    let raw: i32 = if v >= 32768 {
        (v as i32) - 65536
    } else {
        v as i32
    };
    let millicelsius: i64 = (raw as i64) * 100;
    Some(
        SensorReading {
            sensor,
            timestamp_micros: now,
            temperature: Temperature { millicelsius },
            humidity: value[8],
            battery_level: value[9],
        },
    )
}

/// Law: for a service-data map with any number of entries other than one,
/// decoding yields no reading, whatever the sensor and the byte contents.
pub proof fn lemma_decode_needs_single_entry(sensor: SensorSpec, values: Seq<Seq<u8>>, now: u64)
    requires
        values.len() != 1,
    ensures
        spec_decode(sensor, values, now) is None,
{
}

/// Law: for a byte sequence shorter than the 10 bytes the fixed layout
/// reads, decoding yields no reading (offsets 6 through 9 are never
/// touched), whatever the sensor.
pub proof fn lemma_decode_needs_ten_bytes(sensor: SensorSpec, values: Seq<Seq<u8>>, now: u64)
    requires
        values.len() == 1,
        values[0].len() < 10,
    ensures
        spec_decode(sensor, values, now) is None,
{
}

/// The one-line output record for a reading: ISO-8601 UTC timestamp,
/// sensor name, location, Celsius (two decimals), Fahrenheit (two
/// decimals, truncated), humidity, battery level, comma-separated.
pub open spec fn spec_reading_line(r: ReadingSpec) -> Seq<char> {
    rfc3339_micros(r.timestamp_micros as int) + seq![','] + r.sensor.name + seq![',']
        + r.sensor.location + seq![','] + spec_centi(r.millicelsius / 10) + seq![','] + spec_centi(
        spec_fahrenheit_centi(r.millicelsius),
    ) + seq![','] + spec_decimal(r.humidity as nat) + seq![','] + spec_decimal(
        r.battery_level as nat,
    )
}

impl SensorReading {
    /// The temperature is one the 16-bit payload field can carry; every
    /// decoded reading satisfies this.
    pub open spec fn wf_temperature(&self) -> bool {
        -3276800 <= self.temperature.millicelsius <= 3276700
    }

    /// Renders the reading as one output record.
    pub fn to_line(&self) -> (r: String)
        requires
            self.wf_temperature(),
            self.timestamp_micros <= i64::MAX,
        ensures
            r@ == spec_reading_line(self@),
    {
        proof {
            reveal_strlit(",");
        }
        let mut s = format_timestamp_micros(self.timestamp_micros as i64);
        s.append(",");
        s.append(self.sensor.name.as_str());
        s.append(",");
        s.append(self.sensor.location.as_str());
        s.append(",");
        s.append(self.temperature.celsius_string().as_str());
        s.append(",");
        let fahrenheit_centi: i64 = self.temperature.to_fahrenheit();
        s.append(centi_string(fahrenheit_centi).as_str());
        s.append(",");
        s.append(u64_string(self.humidity as u64).as_str());
        s.append(",");
        s.append(u64_string(self.battery_level as u64).as_str());
        assert(s@ =~= spec_reading_line(self@));
        s
    }
}

} // verus!
