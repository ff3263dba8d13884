[package]
name = "mqtt_sensor"
version = "0.1.0"
edition = "2021"
publish = false

[dependencies]
rand = "0.8"
rumqttc = { version = "0.24", default-features = false }
serde = { version = "1", features = ["derive"] }
serde_json = "1"
rmp-serde = "1"
ciborium = "0.2"
prost = "0.12"
clap = { version = "4", features = ["derive"] }
tokio = { version = "1", features = ["rt-multi-thread", "macros", "time"] }
