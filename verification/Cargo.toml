[package]
name = "cargoman"
version = "0.1.0"
edition = "2021"
publish = false

[dependencies]
env_logger = "=0.8.4"
indexmap = { version = "=1.9.3", features = ["serde-1"] }
parse_cfg = "=3.1.0"
serde = { version = "=1.0.229", features = ["derive"] }
structopt = "=0.3.26"
toml = { version = "=0.5.11", features = ["preserve_order"] }
