[package]
name = "qbz"
version = "0.1.0"
edition = "2021"
publish = false

[dependencies]
async-trait = "0.1"
dirs = "*"
filetime = "0.2"
futures-util = "0.3"
libc = "0.2"
log = "0.4"
mdns-sd = "*"
reqwest = { version = "0.12", default-features = false, features = ["stream"] }
rodio = { version = "0.22", default-features = false }
serde = { version = "1", features = ["derive"] }
serde_json = "1"
symphonia = { version = "0.5", features = ["mp3", "aac", "isomp4"] }
tiny_http = { version = "0.12", default-features = false }
tokio = { version = "1", features = ["full"] }
uuid = { version = "1", features = ["v4"] }
