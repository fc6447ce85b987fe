[package]
name = "rusty_pipe_cli"
version = "0.1.0"
edition = "2021"
publish = false

[dependencies]
anyhow = "=1.0.104"
async-std = "=1.13.2"
cpal = "0.13"
crossbeam-channel = "=0.5.17"
futures = "=0.3.34"
log = "=0.4.34"
pretty_env_logger = "=0.4.0"
rb = "0.3"
samplerate = "0.2"
surf = "=2.3.2"
symphonia = { version = "=0.4.0", features = ["aac", "isomp4"] }
