//! A stand-in light sensor for a bench without hardware.

use crate::measure::Measure;
use crate::sensor::{random_word, spread, spread_of, Sensor, SensorReading};
use vstd::prelude::*;

verus! {

/// The lowest value the stand-in gives: 100 lux.
pub const LIGHT_FLOOR: u32 = 10_000;

/// The width of the range the stand-in gives: 200 lux.
pub const LIGHT_SPAN: u32 = 20_000;

/// A light sensor that makes its readings up.
pub struct TestLightIntensitySensor {}

/// The lux, in hundredths, that the stand-in makes of `word`: from 100 up to,
/// but not including, 300.
pub open spec fn light_for(word: u32) -> int {
    LIGHT_FLOOR + spread_of(word, LIGHT_SPAN)
}

impl TestLightIntensitySensor {
    pub fn new() -> Self {
        TestLightIntensitySensor {  }
    }

    /// The reading that is made of `word`: one channel.
    pub fn channels(word: u32) -> (reading: SensorReading)
        ensures
            reading@ == seq![Measure { hundredths: light_for(word) as i32 }],
            LIGHT_FLOOR <= light_for(word) < LIGHT_FLOOR + LIGHT_SPAN,
    {
        let value: u32 = LIGHT_FLOOR + spread(word, LIGHT_SPAN);
        let reading = vec![Measure { hundredths: value as i32 }];
        assert(reading@ =~= seq![Measure { hundredths: light_for(word) as i32 }]);
        reading
    }
}

impl Sensor for TestLightIntensitySensor {
    /// One channel, somewhere from 100 up to, but not including, 300 lux.
    fn read(&mut self) -> (reading: SensorReading)
        ensures
            reading@.len() == 1,
            LIGHT_FLOOR <= reading@[0].hundredths < LIGHT_FLOOR + LIGHT_SPAN,
    {
        TestLightIntensitySensor::channels(random_word())
    }
}

} // verus!
