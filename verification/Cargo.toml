[package]
name = "satellite"
version = "0.1.0"
edition = "2021"
publish = false

[dependencies]
hecs = "0.10"
log = "0.4"
rustix = { version = "1", features = ["event", "fs"] }
smithay-client-toolkit = { version = "0.19", default-features = false }
wayland-client = "0.31"
wayland-protocols = { version = "0.32", features = ["client", "server", "staging", "unstable"] }
wayland-server = "0.31"
xcb = "1"
