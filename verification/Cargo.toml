[package]
name = "boat_core"
version = "0.1.0"
edition = "2021"
publish = false

[dependencies]
socketcan = { version = "=4.0.0", features = ["tokio"] }
tokio = { version = "=1.54.1", features = ["full"] }
futures = "=0.3.34"
log = "=0.4.34"
simple_logger = "=5.2.0"
config = "=0.15.27"
lazy_static = "=1.5.1"
prost = "=0.14.4"
serde = { version = "=1.0.229", features = ["derive"] }
serde_json = "=1.0.154"
tokio-tungstenite = "=0.30.0"
tokio-serial = "=5.5.0"
tokio-util = { version = "=0.7.20", features = ["codec"] }
nmea-parser = "=0.11.0"
sysinfo = "=0.39.6"
systemstat = "=0.2.7"
nalgebra = "=0.25.4"
rppal = "=0.22.1"
serialport = { version = "=4.10.1", default-features = false }
num-traits = "=0.2.19"
eskf = "=0.2.0"
map_3d = "=0.1.7"
cpu-freq = "=0.0.2"
