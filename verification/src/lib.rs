//! The core of a plant telemetry node: it samples a light sensor and a soil
//! moisture probe, shows the latest readings on a bistable panel and publishes
//! them to a broker.
//!
//! Nothing here touches hardware or the network. The sensors turn samples
//! that the caller took into calibrated readings ([`sensor`],
//! [`calibration`]); the display paints a frame and says which panel command
//! is next ([`plant_display`]); the cycle says which sensor to read, what to
//! publish and when to render and sleep ([`sensor_loop`]), and what holds of
//! it is proved in [`cycle_laws`]. Values are fixed-point, in hundredths
//! ([`measure`]).

pub mod bitmap;
pub mod calibration;
pub mod config;
pub mod cycle_laws;
pub mod driver;
pub mod measure;
pub mod plant_display;
pub mod publisher;
pub mod sensor;
pub mod sensor_loop;
pub mod wifi;
