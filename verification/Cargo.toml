[package]
name = "bb8-tiberius"
version = "0.1.0"
edition = "2021"
publish = false

[dependencies]
bb8 = "=0.3.0"
futures = "=0.1.31"
futures-state-stream = "=0.1.1"
tiberius = "=0.3.2"
