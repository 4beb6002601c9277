[package]
name = "fightsim"
version = "0.1.0"
edition = "2021"
publish = false

[dependencies]
rand = "0.9"
rand_xoshiro = "0.7"
biski64 = "*"
crossbeam = "0.8"
threadpool = "1"
fxhash = "0.2"
serde = { version = "1", features = ["derive"] }
serde_json = "1"
