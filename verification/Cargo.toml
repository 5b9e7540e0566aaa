[package]
name = "r2d2_influxdb"
version = "0.1.0"
edition = "2021"
publish = false

[dependencies]
url = "*"
r2d2 = "*"
reqwest = { version = "*", default-features = false, features = ["blocking"] }
