[package]
name = "nimiq_core"
version = "0.1.0"
edition = "2021"
publish = false

[dependencies]
clear_on_drop = "0.2"
rand = "0.6"
argon2 = { version = "0.5", default-features = false, features = ["alloc"] }
futures = "0.1"
