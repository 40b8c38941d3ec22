[package]
name = "onion_engine"
version = "0.1.0"
edition = "2021"
publish = false

[dependencies]
ultraviolet = "0.9"
bytemuck = { version = "1", features = ["derive"] }
pollster = "0.3"
env_logger = "0.10"
log = "0.4"
cfg-if = "1"
console_error_panic_hook = "0.1"
console_log = "1"
