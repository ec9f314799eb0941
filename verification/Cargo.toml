[package]
name = "sonyflake"
version = "0.4.0"
edition = "2021"
publish = false

[dependencies]
chrono = { version = "0.4", default-features = false, features = ["clock", "std"] }
pnet_datalink = "*"
thiserror = "*"
