[package]
name = "wayle"
version = "0.1.0"
edition = "2021"
publish = false

[dependencies]
chrono = "0.4"
thiserror = "2"
zbus = "5"
