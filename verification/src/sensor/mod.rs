//! What a sensor is to the rest of the node.
//!
//! The sensors here hold the constants and the rules of a transducer, not its
//! bus: each turns a sample that the caller took into the channels of a
//! reading. A sample that could not be taken gives a reading without
//! channels, never an error. The two stand-in sensors need no hardware and
//! are read directly.

pub mod air_sensor;
pub mod light_intensity_sensor;
pub mod soil_humidity_sensor;
pub mod test_light_intensity_sensor;
pub mod test_soil_moisture_sensor;

use crate::measure::Measure;
use vstd::prelude::*;

verus! {

/// What one read of a sensor gives: its calibrated channels in a fixed order,
/// one for light and for soil moisture, two for air. A reading without
/// channels says that the sensor could not be read.
pub type SensorReading = Vec<Measure>;

/// A transducer that can be read now. A read gives the calibrated channels,
/// first the one that is shown and published, or nothing when the hardware
/// did not answer; it never fails.
pub trait Sensor {
    /// Takes one reading.
    fn read(&mut self) -> SensorReading;
}

/// What a sensor measures, which decides where its first channel is shown.
#[derive(Clone, Copy, Debug, PartialEq, Eq, Structural)]
pub enum SensorType {
    AirSensor,
    LightIntensitySensor,
    SoilHumiditySensor,
}

/// The place of `word` among all 32-bit words, as a share of `span`:
/// `word / 2^32 * span`, rounded down.
pub open spec fn spread_of(word: u32, span: u32) -> int {
    (word as int * span as int) / 0x1_0000_0000
}

/// Maps a 32-bit word evenly onto `0 .. span`.
pub fn spread(word: u32, span: u32) -> (share: u32)
    ensures
        share == spread_of(word, span),
        span > 0 ==> share < span,
        span == 0 ==> share == 0,
{
    assert(word as int * span as int <= 0xFFFF_FFFF * 0xFFFF_FFFF) by (nonlinear_arith)
        requires
            0 <= word <= 0xFFFF_FFFF,
            0 <= span <= 0xFFFF_FFFF,
    ;
    let product: u64 = word as u64 * span as u64;
    assert(product / 0x1_0000_0000 < 0x1_0000_0000 && (span > 0 ==> product / 0x1_0000_0000
        < span) && (span == 0 ==> product == 0)) by (nonlinear_arith)
        requires
            product == word as int * span as int,
            0 <= word < 0x1_0000_0000,
            0 <= span < 0x1_0000_0000,
    ;
    (product / 0x1_0000_0000) as u32
}

/// `rand::random::<u32>()`: a word from the thread's generator. Nothing is
/// known of it but its type.
#[verifier::external_body]
pub(crate) fn random_word() -> u32 {
    rand::random::<u32>()
}

} // verus!
