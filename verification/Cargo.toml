[package]
name = "valu3"
version = "0.1.0"
edition = "2021"
publish = false

[dependencies]
arrow = "=60.0.0"
chrono = "=0.4.45"
parquet = "=60.0.0"
prettytable-rs = "=0.10.0"
serde = "=1.0.229"
serde_json = "1.0"
