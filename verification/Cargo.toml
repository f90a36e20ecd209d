[package]
name = "global_counter"
version = "0.2.0"
edition = "2021"
publish = false

[dependencies]
lazy_static = "=1.5.1"
lock_api = "=0.4.14"
parking_lot = "=0.12.5"
