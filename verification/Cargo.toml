[package]
name = "keylightd"
version = "0.1.0"
edition = "2021"
publish = false

[dependencies]
anyhow = "1"
argh = "0.1"
env_logger = { version = "0.10", default-features = false }
evdev = "0.12"
libc = "0.2"
log = "0.4"
mio = { version = "1", features = ["os-poll", "os-ext"] }
