[package]
name = "lock_unlock_smart_contract"
version = "0.1.0"
edition = "2021"
publish = false

[dependencies]
ink = "=5.0.0"
