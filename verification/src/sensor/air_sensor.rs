//! The combined temperature and humidity sensor.

use crate::measure::Measure;
use crate::sensor::SensorReading;
use vstd::prelude::*;

verus! {

/// What the sensor gave in one go.
#[derive(Clone, Copy, Debug, PartialEq, Eq, Structural)]
pub struct AirSample {
    /// Degrees Celsius.
    pub temperature: Measure,
    /// Relative humidity in percent.
    pub humidity: Measure,
}

/// An air sensor.
pub struct AirSensor {}

/// The channels for `sample`: temperature first, then humidity, if there is a
/// sample.
pub open spec fn air_channels(sample: Option<AirSample>) -> Seq<Measure> {
    match sample {
        Some(air) => seq![air.temperature, air.humidity],
        None => Seq::<Measure>::empty(),
    }
}

impl AirSensor {
    pub fn new() -> Self {
        AirSensor {  }
    }

    /// The reading for `sample`, what the sensor gave or `None` when it did
    /// not answer or its checksum was wrong: two channels, temperature and
    /// humidity. Without a sample the reading is empty.
    pub fn channels(&self, sample: Option<AirSample>) -> (reading: SensorReading)
        ensures
            reading@ == air_channels(sample),
    {
        match sample {
            Some(air) => {
                let reading = vec![air.temperature, air.humidity];
                assert(reading@ =~= air_channels(sample));
                reading
            },
            None => Vec::new(),
        }
    }
}

} // verus!
