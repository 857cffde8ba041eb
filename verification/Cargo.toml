[package]
name = "frclib"
version = "0.1.0"
edition = "2021"
publish = false

[dependencies]
cfg-if = "=1.0.5"
frclib-core = { version = "=0.2.4", features = ["full", "structure", "value-union"] }
inventory = "=0.3.15"
linkme = "=0.3.37"
nalgebra = "=0.33.3"
num = "=0.4.3"
thiserror = "=1.0.69"
tracing = "=0.1.44"
tracing-appender = "=0.2.5"
tracing-subscriber = { version = "=0.3.23", features = ["json"] }
