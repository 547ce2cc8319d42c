[package]
name = "showkey"
version = "0.1.0"
edition = "2021"
publish = false

[dependencies]
evdev = { version = "0.13", features = ["tokio"] }
input = "0.9"
gtk4 = "0.9"
gtk4-layer-shell = "0.4"
ksni = "0.3"
libc = "0.2"
serde = { version = "1", features = ["derive"] }
tokio = { version = "1", features = ["rt-multi-thread", "sync"] }
toml = "0.8"
