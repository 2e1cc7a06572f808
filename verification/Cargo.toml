[package]
name = "sensor_dash"
version = "0.1.0"
edition = "2021"
publish = false

[dependencies]
serde_json = "1"
serde = { version = "1", features = ["derive"] }
chrono = "0.4"
tokio = { version = "1", features = ["macros", "rt-multi-thread", "time"] }
reqwest = { version = "*", default-features = false, features = ["json"] }
warp = "0.3"
crossterm = "*"
ratatui = "*"
