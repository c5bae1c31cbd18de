[package]
name = "udf"
version = "0.1.0"
edition = "2021"
publish = false

[dependencies]
udf-sys = "*"
chrono = "0.4"
syn = { version = "1", features = ["full"] }
quote = "1"
proc-macro2 = "1"
heck = "0.4"
