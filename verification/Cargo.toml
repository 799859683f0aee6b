[package]
name = "certain_map"
version = "0.1.0"
edition = "2021"
publish = false

[dependencies]
param = "*"
proc-macro2 = "*"
quote = "*"
syn = { version = "*", features = ["full"] }
