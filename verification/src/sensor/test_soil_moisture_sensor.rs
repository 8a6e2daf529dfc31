//! A stand-in soil moisture probe for a bench without hardware.

use crate::measure::Measure;
use crate::sensor::{random_word, spread, spread_of, Sensor, SensorReading};
use vstd::prelude::*;

verus! {

/// The width of the range the stand-in gives: 100 %.
pub const MOISTURE_SPAN: u32 = 10_000;

/// A soil moisture probe that makes its readings up.
pub struct TestSoilMoistureSensor {}

/// The percentage, in hundredths, that the stand-in makes of `word`: from 0
/// up to, but not including, 100.
pub open spec fn moisture_for(word: u32) -> int {
    spread_of(word, MOISTURE_SPAN)
}

impl TestSoilMoistureSensor {
    pub fn new() -> Self {
        TestSoilMoistureSensor {  }
    }

    /// The reading that is made of `word`: one channel.
    pub fn channels(word: u32) -> (reading: SensorReading)
        ensures
            reading@ == seq![Measure { hundredths: moisture_for(word) as i32 }],
            0 <= moisture_for(word) < MOISTURE_SPAN,
    {
        let value: u32 = spread(word, MOISTURE_SPAN);
        let reading = vec![Measure { hundredths: value as i32 }];
        assert(reading@ =~= seq![Measure { hundredths: moisture_for(word) as i32 }]);
        reading
    }
}

impl Sensor for TestSoilMoistureSensor {
    /// One channel, somewhere from 0 up to, but not including, 100 %.
    fn read(&mut self) -> (reading: SensorReading)
        ensures
            reading@.len() == 1,
            0 <= reading@[0].hundredths < MOISTURE_SPAN,
    {
        TestSoilMoistureSensor::channels(random_word())
    }
}

} // verus!
