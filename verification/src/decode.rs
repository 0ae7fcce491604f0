//! Pure payload decoders for the supported sensors and the fan actuator.

pub mod dht;
pub mod fan;
pub mod mcp9808;
