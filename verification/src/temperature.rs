//! Temperature values in fixed-point milli-degrees Celsius, with the
//! truncating Fahrenheit conversion the output format calls for.
//!
//! The hardware reports tenths of a degree Celsius, so every value the
//! decoder constructs is exact in milli-degrees; fixed point keeps the
//! arithmetic exact and verifiable.

use vstd::prelude::*;

use vstd::arithmetic::div_mod::lemma_fundamental_div_mod;

use crate::display::{centi_string, floor_div_i64, spec_centi};

verus! {

/// A Celsius temperature in milli-degrees (1/1000 degree C).
pub struct Temperature {
    pub millicelsius: i64,
}

/// The Fahrenheit display value in centi-degrees (1/100 degree F):
/// floor(((m / 1000) * 1.8 + 32) * 100) == floor((9 * m + 160000) / 50).
/// Division on `int` is Euclidean, so this is the mathematical floor:
/// the conversion truncates and never rounds up.
pub open spec fn spec_fahrenheit_centi(m: int) -> int {
    (9 * m + 160000) / 50
}

impl Temperature {
    /// The Fahrenheit conversion `celsius * 1.8 + 32`, truncated (not
    /// rounded) to two decimal places and returned in centi-degrees.
    pub fn to_fahrenheit(&self) -> (f: i64)
        requires
            i64::MIN < 9 * self.millicelsius,
            9 * self.millicelsius + 160000 <= i64::MAX,
        ensures
            f == spec_fahrenheit_centi(self.millicelsius as int),
    {
        let a: i64 = 9 * self.millicelsius + 160000;
        floor_div_i64(a, 50)
    }

    /// The two-decimal Celsius display string. Values the decoder
    /// constructs are exact in hundredths of a degree, so no rounding
    /// arises; a finer value is truncated toward minus infinity.
    pub fn celsius_string(&self) -> (r: String)
        requires
            self.millicelsius > i64::MIN,
        ensures
            r@ == spec_centi(self.millicelsius as int / 10),
    {
        centi_string(floor_div_i64(self.millicelsius, 10))
    }
}

/// Law: the Fahrenheit display value truncates and never rounds up: the
/// returned centi-degree value `f` is the unique integer with
/// `50 * f <= 9 * m + 160000 < 50 * (f + 1)`.
pub proof fn lemma_fahrenheit_truncates(m: int)
    ensures
        50 * spec_fahrenheit_centi(m) <= 9 * m + 160000 < 50 * (spec_fahrenheit_centi(m) + 1),
{
    lemma_fundamental_div_mod(9 * m + 160000, 50);
}

} // verus!
