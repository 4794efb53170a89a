[package]
name = "ptuber"
version = "0.1.0"
edition = "2021"
publish = false

[dependencies]
clap = { version = "=4.6.7", features = ["derive"] }
device_query = "=4.0.1"
log = "=0.4.34"
sfml = { version = "=0.20.0", default-features = false, features = ["window"] }
thiserror = "=1.0.69"
x11rb = { version = "*", features = ["randr"] }
