//! Resolution of the temperature sensor.

use vstd::prelude::*;

verus! {

/// Number of bits in which the sensor reports a temperature. It is part of
/// the sensor's configuration and decides how long a measurement takes.
#[derive(Clone, Copy, Debug, PartialEq, Eq, Structural)]
pub enum Resolution {
    Bits9,
    Bits10,
    Bits11,
    Bits12,
}

impl Resolution {
    /// Number of bits of the resolution.
    pub open spec fn bits(self) -> int {
        match self {
            Resolution::Bits9 => 9,
            Resolution::Bits10 => 10,
            Resolution::Bits11 => 11,
            Resolution::Bits12 => 12,
        }
    }

    /// Milliseconds the sensor may need to finish a measurement at this
    /// resolution.
    pub open spec fn measurement_millis(self) -> int {
        match self {
            Resolution::Bits9 => 94,
            Resolution::Bits10 => 188,
            Resolution::Bits11 => 375,
            Resolution::Bits12 => 750,
        }
    }
}

/// Calls `ds18b20::Resolution::max_measurement_time_millis` on the
/// resolution of the same name, which returns 94, 188, 375 or 750 for 9, 10,
/// 11 or 12 bits.
#[verifier::external_body]
pub(crate) fn max_measurement_time_millis(resolution: Resolution) -> (millis: u16)
    ensures
        millis == resolution.measurement_millis(),
{
    let outside = match resolution {
        Resolution::Bits9 => ds18b20::Resolution::Bits9,
        Resolution::Bits10 => ds18b20::Resolution::Bits10,
        Resolution::Bits11 => ds18b20::Resolution::Bits11,
        Resolution::Bits12 => ds18b20::Resolution::Bits12,
    };
    outside.max_measurement_time_millis()
}

/// A finer resolution takes longer to measure.
pub proof fn lemma_finer_takes_longer(coarse: Resolution, fine: Resolution)
    requires
        coarse.bits() < fine.bits(),
    ensures
        coarse.measurement_millis() < fine.measurement_millis(),
{
}

} // verus!
