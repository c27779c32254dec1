[package]
name = "activity_telemetry"
version = "0.1.0"
edition = "2021"
publish = false

[dependencies]
chrono = "*"
image = { version = "*", default-features = false, features = ["png"] }
rdev = "*"
scrap = "*"

[dev-dependencies]
serde_json = "*"
