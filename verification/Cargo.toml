[package]
name = "delay_times"
version = "0.1.0"
edition = "2021"
publish = false

[dependencies]
readonly = "0.2"
