[package]
name = "temporal_rn"
version = "0.1.0"
edition = "2021"
publish = false

[dependencies]
temporal_rs = "*"
timezone_provider = "*"
jni = "*"
