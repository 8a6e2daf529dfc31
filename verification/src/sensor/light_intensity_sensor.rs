//! The ambient light sensor.

use crate::calibration::light_hundredths;
use crate::driver::bh1750::{
    register_value, step_views, BusStep, BusStepView, BH1750, MEASUREMENT_DELAY_MS,
    MEASUREMENT_LEN, READ_MEASUREMENT,
};
use crate::measure::Measure;
use crate::sensor::SensorReading;
use vstd::prelude::*;

verus! {

/// A light sensor over its driver.
pub struct LightIntensitySensor {
    bh1750: BH1750,
}

/// The channels for `sample`: the light intensity, if there is a sample.
pub open spec fn light_channels(sample: Option<[u8; 2]>) -> Seq<Measure> {
    match sample {
        Some(data) => seq![
            Measure { hundredths: light_hundredths(register_value(data)) as i32 },
        ],
        None => Seq::<Measure>::empty(),
    }
}

impl LightIntensitySensor {
    /// The bus address of the sensor.
    pub closed spec fn address(&self) -> u8 {
        self.bh1750.address()
    }

    /// A light sensor that is driven by `bh1750`.
    pub fn new(bh1750: BH1750) -> (sensor: Self)
        ensures
            sensor.address() == bh1750.address(),
    {
        LightIntensitySensor { bh1750 }
    }

    /// What the caller does on the bus to take one sample: wait for the
    /// measurement, then read the register.
    pub fn sampling(&self) -> (steps: Vec<BusStep>)
        ensures
            step_views(steps@) == seq![
                BusStepView::Delay { millis: MEASUREMENT_DELAY_MS },
                BusStepView::WriteRead {
                    address: self.address(),
                    bytes: seq![READ_MEASUREMENT],
                    read_len: MEASUREMENT_LEN,
                },
            ],
    {
        self.bh1750.measurement()
    }

    /// The reading for `sample`, the register as it was read or `None` when
    /// the bus failed: one channel, the light intensity in lux. Without a
    /// sample the reading is empty.
    pub fn channels(&self, sample: Option<[u8; 2]>) -> (reading: SensorReading)
        ensures
            reading@ == light_channels(sample),
    {
        match sample {
            Some(data) => {
                let lux = self.bh1750.read_lux(data);
                let reading = vec![lux];
                assert(reading@ =~= light_channels(sample));
                reading
            },
            None => Vec::new(),
        }
    }
}

} // verus!
