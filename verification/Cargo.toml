[package]
name = "rogue_logging"
version = "0.1.0"
edition = "2021"
publish = false

[dependencies]
log = { version = "=0.4.34", features = ["std"] }
chrono = "=0.4.45"
colored = "=2.2.0"
serde = { version = "=1.0.229", features = ["derive"] }
serde_yaml = "=0.9.34"
miette = { version = "=7.6.0", features = ["fancy"] }
owo-colors = "=4.4.0"
clap = { version = "=4.6.7", features = ["derive"] }
