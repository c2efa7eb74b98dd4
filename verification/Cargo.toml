[package]
name = "object_pool"
version = "0.1.0"
edition = "2021"
publish = false

[dependencies]
parking_lot = "=0.12.5"
lock_api = "=0.4.14"
