[package]
name = "implgen"
version = "0.1.0"
edition = "2021"
publish = false

[dependencies]
proc-macro2 = "1"
quote = "1"
syn = { version = "1", features = ["full"] }
async-std = "1"
async-trait = "0.1"
log = "0.4"
