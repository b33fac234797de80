//! Items of the Raspberry Pi Pico W firmware package, which reads its own,
//! shorter registry-map format and names its Modbus requests and errors on its
//! own.
pub mod bridge;
pub mod cycle;
pub mod modbus;
pub mod mqtt;
pub mod registry_map;
