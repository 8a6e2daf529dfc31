//! The BH1750 ambient light sensor on I2C.

use crate::calibration::{calibrate_light, light_hundredths};
use crate::measure::Measure;
use vstd::prelude::*;

verus! {

/// The bus address of the sensor with its address pin low.
pub const BH1750_ADDRESS: u8 = 0x23;

/// The opcode that wakes the sensor.
pub const POWER_ON: u8 = 0x01;

/// What is written before the measurement register is read.
pub const READ_MEASUREMENT: u8 = 0x00;

/// Milliseconds a high-resolution measurement takes at the most. The
/// register is valid only after them.
pub const MEASUREMENT_DELAY_MS: u32 = 180;

/// Bytes in the measurement register.
pub const MEASUREMENT_LEN: usize = 2;

/// One thing to do on the bus, in the order given.
#[derive(Debug, PartialEq, Eq)]
pub enum BusStep {
    /// Wait.
    Delay { millis: u32 },
    /// Write `bytes` to the device at `address`.
    Write { address: u8, bytes: Vec<u8> },
    /// Write `bytes` to the device at `address`, then read `read_len` bytes
    /// from it in the same transaction.
    WriteRead { address: u8, bytes: Vec<u8>, read_len: usize },
}

pub enum BusStepView {
    Delay { millis: u32 },
    Write { address: u8, bytes: Seq<u8> },
    WriteRead { address: u8, bytes: Seq<u8>, read_len: usize },
}

impl View for BusStep {
    type V = BusStepView;

    open spec fn view(&self) -> BusStepView {
        match self {
            BusStep::Delay { millis } => BusStepView::Delay { millis: *millis },
            BusStep::Write { address, bytes } => BusStepView::Write {
                address: *address,
                bytes: bytes@,
            },
            BusStep::WriteRead { address, bytes, read_len } => BusStepView::WriteRead {
                address: *address,
                bytes: bytes@,
                read_len: *read_len,
            },
        }
    }
}

/// The view of each step.
pub open spec fn step_views(steps: Seq<BusStep>) -> Seq<BusStepView> {
    steps.map_values(|step: BusStep| step@)
}

/// The register value that two bytes read from the sensor hold: the first is
/// the high byte.
pub open spec fn register_value(data: [u8; 2]) -> int {
    data@[0] * 256 + data@[1]
}

/// The driver of one sensor.
pub struct BH1750 {
    address: u8,
}

impl BH1750 {
    /// The bus address the driver talks to.
    pub closed spec fn address(&self) -> u8 {
        self.address
    }

    /// The driver of the sensor at the default address.
    pub fn new() -> (driver: Self)
        ensures
            driver.address() == BH1750_ADDRESS,
    {
        BH1750 { address: BH1750_ADDRESS }
    }

    /// What brings the sensor up: one write of the power-on opcode. A sensor
    /// on which this fails is not there.
    pub fn init(&self) -> (steps: Vec<BusStep>)
        ensures
            step_views(steps@) == seq![
                BusStepView::Write { address: self.address(), bytes: seq![POWER_ON] },
            ],
    {
        let bytes: Vec<u8> = vec![POWER_ON];
        assert(bytes@ =~= seq![POWER_ON]);
        let steps = vec![BusStep::Write { address: self.address, bytes }];
        assert(step_views(steps@) =~= seq![
            BusStepView::Write { address: self.address(), bytes: seq![POWER_ON] },
        ]);
        steps
    }

    /// What one measurement takes: the settling delay first, then the read of
    /// the two-byte register. The delay is part of the read.
    pub fn measurement(&self) -> (steps: Vec<BusStep>)
        ensures
            step_views(steps@) == seq![
                BusStepView::Delay { millis: MEASUREMENT_DELAY_MS },
                BusStepView::WriteRead {
                    address: self.address(),
                    bytes: seq![READ_MEASUREMENT],
                    read_len: MEASUREMENT_LEN,
                },
            ],
    {
        let bytes: Vec<u8> = vec![READ_MEASUREMENT];
        assert(bytes@ =~= seq![READ_MEASUREMENT]);
        let steps = vec![
            BusStep::Delay { millis: MEASUREMENT_DELAY_MS },
            BusStep::WriteRead { address: self.address, bytes, read_len: MEASUREMENT_LEN },
        ];
        assert(step_views(steps@) =~= seq![
            BusStepView::Delay { millis: MEASUREMENT_DELAY_MS },
            BusStepView::WriteRead {
                address: self.address(),
                bytes: seq![READ_MEASUREMENT],
                read_len: MEASUREMENT_LEN,
            },
        ]);
        steps
    }

    /// The light intensity that the two bytes read from the register stand
    /// for.
    pub fn read_lux(&self, data: [u8; 2]) -> (lux: Measure)
        ensures
            lux.hundredths == light_hundredths(register_value(data)),
    {
        let raw: u16 = data[0] as u16 * 256 + data[1] as u16;
        calibrate_light(raw)
    }
}

} // verus!
