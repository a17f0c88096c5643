[package]
name = "rekey"
version = "0.1.0"
edition = "2021"
publish = false

[dependencies]
boa_engine = "0.17"
chrono = "0.4"
directories = "5"
