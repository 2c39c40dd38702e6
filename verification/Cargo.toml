[package]
name = "libwinit"
version = "0.1.0"
edition = "2021"
publish = false

[dependencies]
anyhow = "=1.0.104"
env_logger = "=0.11.11"
geometry-box = "1.0.0"
log = "=0.4.34"
parking_lot = "=0.12.5"
raw-window-handle-extensions = "=0.6.0"
string-box = "1.1.1"
value-box = { version = "2.3.3", features = ["anyhow"] }
value-box-ffi = "1.2.0"
winit = "=0.31.0-beta.4"
