use atc_sensors::pipeline::{matches_family, process_event, DEDUP_WINDOW_MICROS};
use atc_sensors::registry::get_sensors;
use atc_sensors::sensor::{Config, Sensor};
use atc_sensors::timefmt::format_timestamp_micros;
use atc_sensors::tracker::SensorTracker;

const W: u64 = DEDUP_WINDOW_MICROS;

fn sensor(name: &str, location: &str) -> Sensor {
    Sensor { name: name.to_string(), location: location.to_string() }
}

fn payload(hi: u8, lo: u8, hum: u8, batt: u8) -> Option<Vec<Vec<u8>>> {
    Some(vec![vec![0, 0, 0, 0, 0, 0, hi, lo, hum, batt]])
}

#[test]
fn family_marker_is_atc_prefix() {
    assert!(matches_family("ATC_AAAA"));
    assert!(matches_family("ATC"));
    assert!(!matches_family("AT"));
    assert!(!matches_family(""));
    assert!(!matches_family("XTC_AAAA"));
    assert!(!matches_family("aTC_AAAA"));
}

#[test]
fn event_without_name_is_dropped() {
    let registry = get_sensors(&Config { sensors: vec![] });
    let mut tracker = SensorTracker::new();
    let r = process_event(&registry, &mut tracker, None, &payload(0, 200, 50, 90), 0, W);
    assert!(r.is_none());
}

#[test]
fn event_with_foreign_name_is_dropped() {
    let registry = get_sensors(&Config { sensors: vec![] });
    let mut tracker = SensorTracker::new();
    let r = process_event(
        &registry,
        &mut tracker,
        Some("Unknown"),
        &payload(0, 200, 50, 90),
        0,
        W,
    );
    assert!(r.is_none());
    // a dropped event does not count against the window
    assert!(tracker.get(&sensor("Unknown", "unknown")).is_none());
}

#[test]
fn dedup_suppresses_within_window() {
    let registry = get_sensors(&Config { sensors: vec![sensor("ATC_AAAA", "kitchen")] });
    let mut tracker = SensorTracker::new();
    let t: u64 = 1_000_000;
    let first = process_event(
        &registry,
        &mut tracker,
        Some("ATC_AAAA"),
        &payload(0, 200, 50, 90),
        t,
        W,
    );
    assert!(first.is_some());
    let second = process_event(
        &registry,
        &mut tracker,
        Some("ATC_AAAA"),
        &payload(0, 200, 50, 90),
        t + W - 1,
        W,
    );
    assert!(second.is_none());
}

#[test]
fn dedup_admits_at_window_boundary() {
    let registry = get_sensors(&Config { sensors: vec![sensor("ATC_AAAA", "kitchen")] });
    let mut tracker = SensorTracker::new();
    let t: u64 = 1_000_000;
    let first = process_event(
        &registry,
        &mut tracker,
        Some("ATC_AAAA"),
        &payload(0, 200, 50, 90),
        t,
        W,
    );
    assert!(first.is_some());
    let second = process_event(
        &registry,
        &mut tracker,
        Some("ATC_AAAA"),
        &payload(0, 200, 50, 90),
        t + W,
        W,
    );
    assert!(second.is_some());
}

#[test]
fn failed_decode_still_counts_against_window() {
    let registry = get_sensors(&Config { sensors: vec![sensor("ATC_AAAA", "kitchen")] });
    let mut tracker = SensorTracker::new();
    let t: u64 = 1_000_000;
    // malformed payload: too short, so the first event emits nothing
    let first = process_event(
        &registry,
        &mut tracker,
        Some("ATC_AAAA"),
        &Some(vec![vec![1, 2, 3]]),
        t,
        W,
    );
    assert!(first.is_none());
    // but it marked the sensor as seen, so a valid payload inside the
    // window is still suppressed
    let second = process_event(
        &registry,
        &mut tracker,
        Some("ATC_AAAA"),
        &payload(0, 200, 50, 90),
        t + W - 1,
        W,
    );
    assert!(second.is_none());
}

#[test]
fn absent_service_data_emits_nothing_but_marks_seen() {
    let registry = get_sensors(&Config { sensors: vec![sensor("ATC_AAAA", "kitchen")] });
    let mut tracker = SensorTracker::new();
    let r = process_event(&registry, &mut tracker, Some("ATC_AAAA"), &None, 5, W);
    assert!(r.is_none());
    assert_eq!(tracker.get(&sensor("ATC_AAAA", "kitchen")), Some(5));
}

#[test]
fn unconfigured_family_device_gets_unknown_location() {
    let registry = get_sensors(&Config { sensors: vec![sensor("ATC_AAAA", "kitchen")] });
    let mut tracker = SensorTracker::new();
    let r = process_event(
        &registry,
        &mut tracker,
        Some("ATC_BBBB"),
        &payload(0, 200, 50, 90),
        0,
        W,
    )
    .unwrap();
    assert_eq!(r.sensor.name, "ATC_BBBB");
    assert_eq!(r.sensor.location, "unknown");
}

#[test]
fn end_to_end_kitchen_record() {
    // one configured sensor; one advertisement with a payload carrying
    // 20.0 C, humidity 50, battery 90; expect one record, location
    // "kitchen", Fahrenheit 68.00
    let registry = get_sensors(&Config { sensors: vec![sensor("ATC_AAAA", "kitchen")] });
    let mut tracker = SensorTracker::new();
    let now: u64 = 1_709_294_400_123_456; // 2024-03-01T12:00:00.123456Z
    let reading = process_event(
        &registry,
        &mut tracker,
        Some("ATC_AAAA"),
        &payload(0x00, 0xC8, 50, 90),
        now,
        W,
    )
    .unwrap();
    assert_eq!(reading.sensor.location, "kitchen");
    assert_eq!(reading.temperature.millicelsius, 20000);
    assert_eq!(
        reading.to_line(),
        "2024-03-01T12:00:00.123456+00:00,ATC_AAAA,kitchen,20.00,68.00,50,90"
    );
}

#[test]
fn timestamp_renders_rfc3339_utc() {
    assert_eq!(format_timestamp_micros(0), "1970-01-01T00:00:00.000000+00:00");
    assert_eq!(
        format_timestamp_micros(1_709_294_400_123_456),
        "2024-03-01T12:00:00.123456+00:00"
    );
    // cross-check against chrono used directly
    let micros: i64 = 1_662_921_288_000_000;
    let dt = chrono::DateTime::from_timestamp_micros(micros).unwrap();
    assert_eq!(
        format_timestamp_micros(micros),
        dt.to_rfc3339_opts(chrono::SecondsFormat::Micros, false)
    );
}
