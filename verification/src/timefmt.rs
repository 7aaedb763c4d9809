//! Timestamp rendering for the output record, delegated to chrono.

use vstd::prelude::*;

verus! {

/// The RFC 3339 rendering of a UTC capture instant given in microseconds
/// since the Unix epoch, as chrono produces it.
pub uninterp spec fn rfc3339_micros(micros: int) -> Seq<char>;

/// Relies on chrono's `DateTime::from_timestamp_micros` and
/// `to_rfc3339_opts`: an RFC 3339 / ISO 8601 UTC date-time string with
/// microsecond precision and a "+00:00" offset, e.g.
/// "2024-03-01T12:00:00.123456+00:00". The result depends on the
/// microsecond count alone; an instant beyond chrono's representable
/// range (about 262,000 years from the common era) renders as the empty
/// string. Neither chrono call panics.
#[verifier::external_body]
pub fn format_timestamp_micros(micros: i64) -> (r: String)
    ensures
        r@ == rfc3339_micros(micros as int),
{
    match chrono::DateTime::from_timestamp_micros(micros) {
        Some(dt) => dt.to_rfc3339_opts(chrono::SecondsFormat::Micros, false),
        None => String::new(),
    }
}

} // verus!
