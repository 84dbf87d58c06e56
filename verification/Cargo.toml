[package]
name = "gnss_qc"
version = "0.1.0"
edition = "2021"
publish = false

[dependencies]
rinex = { version = "=0.24.0", features = ["flate2", "nav", "meteo", "obs", "clock", "qc", "processing"] }
sp3 = { version = "=1.4.1", features = ["flate2", "qc", "processing"] }
gnss-qc-traits = "0.4"
gnss-rs = { version = "=2.7.0", features = ["std"] }
anise = "=0.10.0"
maud = "0.26"
serde = { version = "=1.0.229", features = ["derive"] }
thiserror = "2"
itertools = "0.14"
log = "0.4"
flate2 = "=1.1.10"
