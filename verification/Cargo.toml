[package]
name = "hour_tracker"
version = "0.1.0"
edition = "2021"
publish = false

[dependencies]
chrono = "0.4"
clap = "2"
csv = "1"
directories = "5"
