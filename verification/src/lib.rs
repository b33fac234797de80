//! A bridge from Modbus RTU registers to MQTT topics: the registry map that
//! says what to read, the Modbus exchange that reads it, and the topic it is
//! published under.
pub mod configuration;
pub mod cycle;
pub mod firmware;
pub mod logging;
pub mod modbus;
pub mod registry_map;
pub mod status_led;
pub mod tasks;
pub mod text;
