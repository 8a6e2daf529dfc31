[package]
name = "plant_telemetry"
version = "0.1.0"
edition = "2021"
publish = false

[dependencies]
embedded-dht-rs = { version = "=0.5.0", features = ["dht22"] }
embedded-graphics = "=0.8.2"
embedded-hal = "=1.0.0"
epd-waveshare = "=0.6.0"
esp-idf-hal = "0.44"
esp-idf-svc = "0.49"
heapless = "=0.8.0"
image = { version = "=0.25.10", default-features = false, features = ["jpeg", "png"] }
log = "0.4"
rand = "=0.8.8"
serde = { version = "1", features = ["derive"] }
