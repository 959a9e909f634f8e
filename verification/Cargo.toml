[package]
name = "balance_changes"
version = "0.1.0"
edition = "2021"
publish = false

[dependencies]
cached = "=0.59.0"
anyhow = "=1.0.104"
bigdecimal = "=0.4.11"
futures = "=0.3.34"
num-traits = "=0.2.19"
