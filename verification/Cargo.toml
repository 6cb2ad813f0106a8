[package]
name = "sync_demos"
version = "0.1.0"
edition = "2021"
publish = false

[dependencies]
egui = "0.27"
parking_lot = "0.12"
png = "0.17"
