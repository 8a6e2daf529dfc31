//! The capacitive soil moisture probe on an ADC channel.

use crate::calibration::{calibrate_moisture, moisture_hundredths};
use crate::measure::Measure;
use crate::sensor::SensorReading;
use vstd::prelude::*;

verus! {

/// Why a probe could not be set up.
#[derive(Clone, Copy, Debug, PartialEq, Eq, Structural)]
pub enum CalibrationError {
    /// The wet and the dry bound are the same count, so no count between
    /// them has a meaning.
    DegenerateBounds,
}

/// The largest count that is taken for a sample. The bounds are signed 16-bit
/// counts; a sample above their range did not come from the probe.
pub const MAX_SAMPLE: u16 = 0x7FFF;

/// A probe with its two calibration bounds: the raw count in water and the
/// raw count in air. They differ.
pub struct SoilMoistureSensor {
    wet_value: i16,
    dry_value: i16,
}

/// The channels of a probe with the bounds `wet` and `dry` for `sample`: the
/// moisture, if there is a sample and it is a count the probe can give.
pub open spec fn soil_channels(wet: i16, dry: i16, sample: Option<u16>) -> Seq<Measure> {
    match sample {
        Some(raw) => if raw <= MAX_SAMPLE {
            seq![
                Measure {
                    hundredths: moisture_hundredths(raw as int, wet as int, dry as int) as i32,
                },
            ]
        } else {
            Seq::<Measure>::empty()
        },
        None => Seq::<Measure>::empty(),
    }
}

impl SoilMoistureSensor {
    #[verifier::type_invariant]
    spec fn bounds_differ(self) -> bool {
        self.wet_value != self.dry_value
    }

    /// The raw count in water.
    pub closed spec fn wet(&self) -> i16 {
        self.wet_value
    }

    /// The raw count in air.
    pub closed spec fn dry(&self) -> i16 {
        self.dry_value
    }

    /// A probe with the given bounds. Bounds that coincide are refused.
    pub fn new(wet_value: i16, dry_value: i16) -> (made: Result<Self, CalibrationError>)
        ensures
            wet_value == dry_value <==> made is Err,
            made matches Ok(sensor) ==> sensor.wet() == wet_value && sensor.dry() == dry_value,
            made matches Err(e) ==> e == CalibrationError::DegenerateBounds,
    {
        if wet_value == dry_value {
            Err(CalibrationError::DegenerateBounds)
        } else {
            Ok(SoilMoistureSensor { wet_value, dry_value })
        }
    }

    /// The raw count in water.
    pub fn wet_value(&self) -> (wet: i16)
        ensures
            wet == self.wet(),
    {
        self.wet_value
    }

    /// The raw count in air.
    pub fn dry_value(&self) -> (dry: i16)
        ensures
            dry == self.dry(),
            dry != self.wet(),
    {
        proof {
            use_type_invariant(self);
        }
        self.dry_value
    }

    /// The reading for `sample`, the count the ADC gave or `None` when the
    /// conversion failed: one channel, the moisture in percent. Without a
    /// sample, or with one above `MAX_SAMPLE`, the reading is empty.
    pub fn channels(&self, sample: Option<u16>) -> (reading: SensorReading)
        ensures
            reading@ == soil_channels(self.wet(), self.dry(), sample),
    {
        proof {
            use_type_invariant(self);
        }
        match sample {
            Some(raw) => {
                if raw <= MAX_SAMPLE {
                    let pct = calibrate_moisture(raw as i16, self.wet_value, self.dry_value);
                    let reading = vec![pct];
                    assert(reading@ =~= soil_channels(self.wet(), self.dry(), sample));
                    reading
                } else {
                    Vec::new()
                }
            },
            None => Vec::new(),
        }
    }
}

} // verus!
