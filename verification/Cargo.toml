[package]
name = "prtsc"
version = "0.1.0"
edition = "2021"
publish = false

[dependencies]
ashpd = { version = "*", features = ["screenshot", "screencast"] }
libc = "0.2"
mp4 = "0.14"
openh264 = "*"
pipewire = "0.9"
rmcp = { version = "*", features = ["server", "macros", "transport-io"] }
serde_json = "1"
tokio = { version = "1", features = ["rt", "macros", "io-std", "time", "net", "sync"] }
