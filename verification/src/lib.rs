//! Decision logic for a sensor telemetry publisher and subscriber that talk
//! over MQTT: payload tiers, codec selection, delivery levels and message
//! accounting, each stated with a contract.

pub mod text;
pub mod qos;
pub mod encoding;
pub mod sensor;
pub mod sampling;
pub mod connection;
pub mod publisher;
pub mod subscriber;
