[package]
name = "mrt_record"
version = "0.1.0"
edition = "2021"
publish = false

[dependencies]
bgp-models = "*"
byteorder = "1"
num-traits = "0.2"
