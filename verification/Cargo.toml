[package]
name = "mouseless"
version = "0.1.0"
edition = "2021"
publish = false

[dependencies]
clap = { version = "*", features = ["derive"] }
env_logger = "*"
evdev = "=0.13.2"
futures-util = "*"
log = "*"
serde = { version = "*", features = ["derive"] }
serde_json = "*"
tokio = { version = "*", features = ["macros", "rt-multi-thread"] }
warp = { version = "=0.4.3", features = ["server", "websocket"] }
