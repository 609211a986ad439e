[package]
name = "hlc_gen"
version = "0.1.0"
edition = "2021"
publish = false

[dependencies]
chrono = "=0.4.45"
lock_api = "=0.4.14"
parking_lot = "=0.12.5"
