[package]
name = "aeonflux"
version = "0.1.0"
edition = "2021"
publish = false

[dependencies]
curve25519-dalek = { version = "=4.1.3", features = ["rand_core"] }
rand_core = "=0.6.4"
clear_on_drop = { version = "=0.2.5", features = ["no_cc"] }

[dev-dependencies]
rand = "=0.8.8"
