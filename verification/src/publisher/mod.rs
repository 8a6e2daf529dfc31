//! What is handed to the publish sink.

pub mod message;
pub mod mqtt_publisher;
pub mod sensor_config;
