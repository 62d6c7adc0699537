[package]
name = "super_analyzer"
version = "0.1.0"
edition = "2021"
publish = false

[dependencies]
serde = "=0.7.15"
serde_json = "=0.7.4"
clap = "=2.34.0"
colored = "=2.2.0"
