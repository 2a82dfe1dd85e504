[package]
name = "facefinder"
version = "0.1.0"
edition = "2021"
publish = false

[dependencies]
anyhow = "=1.0.104"
base64 = "=0.21.7"
env_logger = "=0.11.11"
image = "=0.23.14"
log = "=0.4.34"
nalgebra = "=0.29.0"
once_cell = "=1.21.4"
pico-detect = "=0.4.1"
rand = "=0.8.8"
rand_xorshift = "=0.3.0"
reqwest = { version = "=0.11.27", default-features = false, features = ["json"] }
serde = { version = "=1.0.229", features = ["derive"] }
serde_json = "=1.0.154"
tokio = { version = "=1.54.1", features = ["macros", "rt-multi-thread", "time"] }
