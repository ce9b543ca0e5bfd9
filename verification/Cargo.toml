[package]
name = "zmq_bench"
version = "0.1.0"
edition = "2021"
publish = false

[dependencies]
clap = "2"
zmq = "0.10"
