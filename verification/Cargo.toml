[package]
name = "cursor_ping"
version = "0.1.0"
edition = "2021"
publish = false

[dependencies]
clap = { version = "*", features = ["derive"] }
csscolorparser = "*"
device_query = "*"
env_logger = "*"
log = "*"
softbuffer = "*"
winit = "*"
