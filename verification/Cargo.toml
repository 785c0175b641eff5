[package]
name = "vanishing_argument"
version = "0.1.0"
edition = "2021"
publish = false

[dependencies]
ff = { version = "0.12", default-features = false }

[dev-dependencies]
subtle = { version = "2", default-features = false }
rand_core = { version = "0.6", default-features = false }
