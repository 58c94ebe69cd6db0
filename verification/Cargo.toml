[package]
name = "tpu_pipeline"
version = "0.1.0"
edition = "2021"
publish = false

[dependencies]
bs58 = "0.5"
crossbeam-channel = "0.5"
