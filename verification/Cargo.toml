[package]
name = "hillclimb"
version = "0.1.0"
edition = "2021"
publish = false

[dependencies]
rapier2d-f64 = "*"
nalgebra = "*"
tokio = { version = "*", features = ["macros", "rt-multi-thread", "sync", "time"] }
crossterm = { version = "*", features = ["event-stream"] }
futures = "*"
ratatui = "*"
color-eyre = "*"
