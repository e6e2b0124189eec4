[package]
name = "dg_sysfs"
version = "0.1.0"
edition = "2021"
publish = false

[dependencies]
uuid = { version = "1", features = ["serde"] }
serde = { version = "1", features = ["derive"] }
tokio = { version = "1", features = ["fs", "io-util", "rt", "macros"] }
libc = "0.2"
log = "0.4"
