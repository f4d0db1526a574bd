[package]
name = "baudacious"
version = "0.1.0"
edition = "2021"
publish = false

[dependencies]
cpal = "0.15"
log = "0.4"
ringbuf = "0.4"
rustfft = "6"
serde = { version = "1", features = ["derive"] }
serde_json = "1"
serialport = "4"
thiserror = "1"
