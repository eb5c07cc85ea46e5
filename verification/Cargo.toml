[package]
name = "zonelog"
version = "0.1.0"
edition = "2021"
publish = false

[dependencies]
bytes = "1"
crossbeam = "0.8"
serde = "1"
serde_json = "1"
