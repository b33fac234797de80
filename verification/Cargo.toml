[package]
name = "modbus_mqtt_bridge"
version = "0.1.0"
edition = "2021"
publish = false

[dependencies]
rmodbus = "=0.9.10"
heapless = "=0.8.0"
rust-mqtt = "=0.3.1"
serde = { version = "=1.0.229", features = ["derive"] }
serde_json = "=1.0.154"
tokio = { version = "=1.54.1", features = ["rt-multi-thread", "macros", "net", "fs", "io-util", "time"] }
tokio-serial = { version = "=5.5.0", default-features = false }
anyhow = "=1.0.104"
thiserror = "=1.0.69"
futures = "=0.3.34"
embedded-io-async = "=0.6.1"
rand_core = "=0.9.5"
error_set = "=0.9.2"
log = "=0.4.35"
