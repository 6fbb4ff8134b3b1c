[package]
name = "libghostty-vt"
version = "0.1.0"
edition = "2021"
publish = false

[dependencies]
allocator-api2 = "0.2"
macroquad = "0.4"
nix = { version = "0.30", features = ["fs", "ioctl", "process", "signal", "term", "user"] }
png = "0.18"
